//! A player: an id, a name and one score per category.

use crate::score::Score;
use crate::score::CATEGORIES;
use crate::util::variant_eq;
use vstd::prelude::*;

verus! {

/// The sheet of a player who has not scored yet: every category once, in
/// the order in which the categories are shown, each with no points.
pub open spec fn blank_sheet() -> Seq<Score> {
    seq![
        Score::Birds(0),
        Score::BonusCards(0),
        Score::RoundEndGoals(0),
        Score::Eggs(0),
        Score::StashedFood(0),
        Score::TuckedCards(0),
    ]
}

/// A sheet is complete when it holds every category exactly once, each at
/// its own position.
pub open spec fn complete_sheet(scores: Seq<Score>) -> bool {
    &&& scores.len() == CATEGORIES
    &&& forall|i: int| 0 <= i < scores.len() ==> (#[trigger] scores[i]).category() == i
}

/// The sum of the points of all the entries of `scores`.
pub open spec fn points_sum(scores: Seq<Score>) -> int
    decreases scores.len(),
{
    if scores.len() == 0 {
        0
    } else {
        points_sum(scores.drop_last()) + scores.last().points()
    }
}

/// Whether entry `i` is the first of `scores` in the category of `score`.
pub open spec fn first_in_category(scores: Seq<Score>, score: Score, i: int) -> bool {
    &&& 0 <= i < scores.len()
    &&& scores[i].same_category(score)
    &&& forall|j: int| 0 <= j < i ==> !(#[trigger] scores[j]).same_category(score)
}

/// `scores` after `score` has taken the place of the first entry of its
/// category; where no entry has that category, `scores` itself.
pub open spec fn recorded(scores: Seq<Score>, score: Score) -> Seq<Score> {
    Seq::new(
        scores.len(),
        |i: int|
            if first_in_category(scores, score, i) {
                score
            } else {
                scores[i]
            },
    )
}

/// What a player is, as plain values.
pub struct PlayerView {
    pub id: int,
    pub name: Seq<char>,
    pub scores: Seq<Score>,
}

impl PlayerView {
    /// The player with the given id and name who has not scored yet.
    pub open spec fn fresh(id: int, name: Seq<char>) -> PlayerView {
        PlayerView { id, name, scores: blank_sheet() }
    }

    /// The player's sheet is complete.
    pub open spec fn wf(self) -> bool {
        complete_sheet(self.scores)
    }

    /// The sum of the player's points over all categories.
    pub open spec fn total(self) -> int {
        points_sum(self.scores)
    }

    /// The player after `score` was recorded on the sheet.
    pub open spec fn with_score(self, score: Score) -> PlayerView {
        PlayerView { scores: recorded(self.scores, score), ..self }
    }
}

/// One player of the roster.
#[derive(Debug, Clone)]
pub struct Player {
    pub id: usize,
    pub name: String,
    pub scores: [Score; 6],
}

impl View for Player {
    type V = PlayerView;

    open spec fn view(&self) -> PlayerView {
        PlayerView { id: self.id as int, name: self.name@, scores: self.scores@ }
    }
}

/// On six entries the sum of the points is the sum of the six payloads.
pub proof fn lemma_points_sum_of_six(scores: Seq<Score>)
    requires
        scores.len() == CATEGORIES,
    ensures
        points_sum(scores) == scores[0].points() + scores[1].points() + scores[2].points()
            + scores[3].points() + scores[4].points() + scores[5].points(),
        0 <= points_sum(scores) <= 1530,
{
    let s5 = scores.drop_last();
    let s4 = s5.drop_last();
    let s3 = s4.drop_last();
    let s2 = s3.drop_last();
    let s1 = s2.drop_last();
    let s0 = s1.drop_last();
    assert(points_sum(s0) == 0);
    assert(points_sum(s1) == points_sum(s0) + s1.last().points());
    assert(points_sum(s2) == points_sum(s1) + s2.last().points());
    assert(points_sum(s3) == points_sum(s2) + s3.last().points());
    assert(points_sum(s4) == points_sum(s3) + s4.last().points());
    assert(points_sum(s5) == points_sum(s4) + s5.last().points());
    assert(points_sum(scores) == points_sum(s5) + scores.last().points());
}

/// A player who has not scored yet has a complete sheet and a total of zero.
pub proof fn lemma_fresh_player(id: int, name: Seq<char>)
    ensures
        PlayerView::fresh(id, name).wf(),
        PlayerView::fresh(id, name).total() == 0,
        forall|i: int|
            0 <= i < CATEGORIES ==> (#[trigger] PlayerView::fresh(id, name).scores[i]).points()
                == 0,
{
    lemma_points_sum_of_six(blank_sheet());
}

/// Recording a score on a complete sheet replaces the entry of the score's
/// category and no other: the other five entries are what they were, the
/// sheet stays complete, and the total moves by the difference between the
/// new points and the old ones.
pub proof fn lemma_recorded_on_complete_sheet(scores: Seq<Score>, score: Score)
    requires
        complete_sheet(scores),
    ensures
        recorded(scores, score) == scores.update(score.category(), score),
        recorded(scores, score)[score.category()] == score,
        forall|i: int|
            0 <= i < CATEGORIES && i != score.category() ==> #[trigger] recorded(scores, score)[i]
                == scores[i],
        complete_sheet(recorded(scores, score)),
        points_sum(recorded(scores, score)) == points_sum(scores)
            - scores[score.category()].points() + score.points(),
{
    let c = score.category();
    let after = recorded(scores, score);
    assert(0 <= c < CATEGORIES);
    assert forall|i: int| 0 <= i < scores.len() implies (first_in_category(scores, score, i) <==> i
        == c) by {
        assert(scores[i].category() == i);
    }
    assert(after =~= scores.update(c, score));
    lemma_points_sum_of_six(scores);
    lemma_points_sum_of_six(after);
}

/// Recording on any sheet, complete or not, keeps its length and changes at
/// most one entry; it changes none where no entry has the score's category.
pub proof fn lemma_recorded_changes_one(scores: Seq<Score>, score: Score)
    ensures
        recorded(scores, score).len() == scores.len(),
        forall|i: int, j: int|
            0 <= i < j < scores.len() && recorded(scores, score)[i] != scores[i] ==> recorded(
                scores,
                score,
            )[j] == scores[j],
        (forall|i: int| 0 <= i < scores.len() ==> !(#[trigger] scores[i]).same_category(score))
            ==> recorded(scores, score) == scores,
{
    if forall|i: int| 0 <= i < scores.len() ==> !(#[trigger] scores[i]).same_category(score) {
        assert(recorded(scores, score) =~= scores);
    }
}

impl Player {
    /// The player's sheet is complete.
    pub open spec fn wf(&self) -> bool {
        self@.wf()
    }

    /// A player with the given id and name and no points in any category.
    pub fn new(id: usize, name: String) -> (player: Player)
        ensures
            player@ == PlayerView::fresh(id as int, name@),
            player.id == id,
            player.name == name,
            player.wf(),
            player@.total() == 0,
    {
        let player = Self {
            id,
            name,
            scores: [
                Score::Birds(0),
                Score::BonusCards(0),
                Score::RoundEndGoals(0),
                Score::Eggs(0),
                Score::StashedFood(0),
                Score::TuckedCards(0),
            ],
        };
        proof {
            assert(player.scores@ =~= blank_sheet());
            lemma_fresh_player(id as int, name@);
        }
        player
    }

    /// Records `new_score`: it takes the place of the first entry of its
    /// category. On a complete sheet that is the one entry of the category,
    /// and the sheet stays complete.
    pub fn set_score(&mut self, new_score: Score)
        ensures
            final(self)@ == old(self)@.with_score(new_score),
            final(self).id == old(self).id,
            final(self).name == old(self).name,
            old(self).wf() ==> final(self).wf() && final(self).scores@ == old(self).scores@.update(
                new_score.category(),
                new_score,
            ),
    {
        let mut i: usize = 0;
        while i < CATEGORIES
            invariant_except_break
                i <= CATEGORIES,
                *self == *old(self),
                forall|j: int| 0 <= j < i ==> !(#[trigger] self.scores@[j]).same_category(new_score),
            ensures
                self.id == old(self).id,
                self.name == old(self).name,
                self.scores@ =~= recorded(old(self).scores@, new_score),
            decreases CATEGORIES - i,
        {
            if variant_eq(&self.scores[i], &new_score) {
                self.scores[i] = new_score;
                proof {
                    assert(first_in_category(old(self).scores@, new_score, i as int));
                }
                break ;
            }
            i += 1;
        }
        proof {
            if old(self).wf() {
                lemma_recorded_on_complete_sheet(old(self).scores@, new_score);
            }
        }
    }

    /// The sum of the player's points over all categories.
    pub fn total_score(&self) -> (total: u16)
        ensures
            total == self@.total(),
            total == self.scores[0].points() + self.scores[1].points() + self.scores[2].points()
                + self.scores[3].points() + self.scores[4].points() + self.scores[5].points(),
    {
        let mut total: u16 = 0;
        let mut i: usize = 0;
        while i < CATEGORIES
            invariant
                i <= CATEGORIES,
                total == points_sum(self.scores@.take(i as int)),
                total <= 255 * i,
            decreases CATEGORIES - i,
        {
            proof {
                assert(self.scores@.take(i + 1).drop_last() =~= self.scores@.take(i as int));
            }
            total = total + *self.scores[i].get_score() as u16;
            i += 1;
        }
        proof {
            assert(self.scores@.take(CATEGORIES as int) =~= self.scores@);
            lemma_points_sum_of_six(self.scores@);
        }
        total
    }
}

} // verus!
