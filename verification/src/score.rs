//! A score: one of six categories together with the points entered for it.

use vstd::prelude::*;

verus! {

/// Number of categories on a score sheet.
pub const CATEGORIES: usize = 6;

/// The points a player holds in one category. The variant is the category
/// and never changes; the payload is the number of points.
#[derive(Debug, Clone, Copy, PartialEq, Eq, Structural)]
pub enum Score {
    Birds(u8),
    BonusCards(u8),
    RoundEndGoals(u8),
    Eggs(u8),
    StashedFood(u8),
    TuckedCards(u8),
}

impl Score {
    /// Position of the category on the sheet, counted from zero.
    pub open spec fn category(self) -> int {
        match self {
            Score::Birds(_) => 0,
            Score::BonusCards(_) => 1,
            Score::RoundEndGoals(_) => 2,
            Score::Eggs(_) => 3,
            Score::StashedFood(_) => 4,
            Score::TuckedCards(_) => 5,
        }
    }

    /// The points held in the category.
    pub open spec fn points(self) -> u8 {
        match self {
            Score::Birds(x) => x,
            Score::BonusCards(x) => x,
            Score::RoundEndGoals(x) => x,
            Score::Eggs(x) => x,
            Score::StashedFood(x) => x,
            Score::TuckedCards(x) => x,
        }
    }

    /// The label under which the category is shown.
    pub open spec fn label(self) -> Seq<char> {
        match self {
            Score::Birds(_) => "Birds"@,
            Score::BonusCards(_) => "Bonus Cards"@,
            Score::RoundEndGoals(_) => "Round End Goals"@,
            Score::Eggs(_) => "Eggs"@,
            Score::StashedFood(_) => "Stashed Food"@,
            Score::TuckedCards(_) => "Tucked Cards"@,
        }
    }

    /// Whether two scores belong to the same category, whatever their points.
    pub open spec fn same_category(self, other: Score) -> bool {
        self.category() == other.category()
    }

    /// The score of category `self` that holds `points`.
    pub open spec fn with_points(self, points: u8) -> Score {
        match self {
            Score::Birds(_) => Score::Birds(points),
            Score::BonusCards(_) => Score::BonusCards(points),
            Score::RoundEndGoals(_) => Score::RoundEndGoals(points),
            Score::Eggs(_) => Score::Eggs(points),
            Score::StashedFood(_) => Score::StashedFood(points),
            Score::TuckedCards(_) => Score::TuckedCards(points),
        }
    }

    /// A score is nothing more than its category and its points: two scores
    /// that agree on both are the same score.
    pub proof fn lemma_category_and_points_determine(self, other: Score)
        requires
            self.category() == other.category(),
            self.points() == other.points(),
        ensures
            self == other,
    {
    }

    /// Replacing the points keeps the category, stores exactly the new
    /// points, and forgets the old ones.
    pub proof fn lemma_with_points(self, points: u8, later: u8)
        ensures
            0 <= self.category() < CATEGORIES,
            self.with_points(points).category() == self.category(),
            self.with_points(points).points() == points,
            self.with_points(self.points()) == self,
            self.with_points(points).with_points(later) == self.with_points(later),
    {
    }

    /// The label of the score's category.
    pub fn get_name(&self) -> (name: &str)
        ensures
            name@ == self.label(),
    {
        match self {
            Self::Birds(_) => "Birds",
            Self::BonusCards(_) => "Bonus Cards",
            Self::RoundEndGoals(_) => "Round End Goals",
            Self::Eggs(_) => "Eggs",
            Self::StashedFood(_) => "Stashed Food",
            Self::TuckedCards(_) => "Tucked Cards",
        }
    }

    /// The points held in the category.
    pub fn get_score(&self) -> (points: &u8)
        ensures
            *points == self.points(),
    {
        match self {
            Self::Birds(x) => x,
            Self::BonusCards(x) => x,
            Self::RoundEndGoals(x) => x,
            Self::Eggs(x) => x,
            Self::StashedFood(x) => x,
            Self::TuckedCards(x) => x,
        }
    }

    /// A score of the same category that holds `new_score`; `self` is left
    /// as it was.
    pub fn update(&self, new_score: u8) -> (updated: Score)
        ensures
            updated.category() == self.category(),
            updated.points() == new_score,
            updated == self.with_points(new_score),
    {
        match self {
            Self::Birds(_) => Self::Birds(new_score),
            Self::BonusCards(_) => Self::BonusCards(new_score),
            Self::RoundEndGoals(_) => Self::RoundEndGoals(new_score),
            Self::Eggs(_) => Self::Eggs(new_score),
            Self::StashedFood(_) => Self::StashedFood(new_score),
            Self::TuckedCards(_) => Self::TuckedCards(new_score),
        }
    }
}

} // verus!
