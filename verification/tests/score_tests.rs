use wingscore::util::{edited_score, parse_byte, variant_eq};
use wingscore::{Player, Score};

fn one_of_each(points: u8) -> [Score; 6] {
    [
        Score::Birds(points),
        Score::BonusCards(points),
        Score::RoundEndGoals(points),
        Score::Eggs(points),
        Score::StashedFood(points),
        Score::TuckedCards(points),
    ]
}

#[test]
fn names_follow_the_category_table() {
    let all = one_of_each(0);
    let names: Vec<&str> = all.iter().map(|s| s.get_name()).collect();
    assert_eq!(
        names,
        vec![
            "Birds",
            "Bonus Cards",
            "Round End Goals",
            "Eggs",
            "Stashed Food",
            "Tucked Cards"
        ]
    );
}

#[test]
fn name_does_not_depend_on_points() {
    assert_eq!(Score::Eggs(0).get_name(), Score::Eggs(255).get_name());
}

#[test]
fn get_score_reads_the_payload() {
    assert_eq!(*Score::Birds(0).get_score(), 0);
    assert_eq!(*Score::BonusCards(1).get_score(), 1);
    assert_eq!(*Score::RoundEndGoals(17).get_score(), 17);
    assert_eq!(*Score::Eggs(99).get_score(), 99);
    assert_eq!(*Score::StashedFood(254).get_score(), 254);
    assert_eq!(*Score::TuckedCards(255).get_score(), 255);
}

#[test]
fn update_keeps_the_category() {
    assert_eq!(Score::Birds(3).update(9), Score::Birds(9));
    assert_eq!(Score::BonusCards(3).update(9), Score::BonusCards(9));
    assert_eq!(Score::RoundEndGoals(3).update(9), Score::RoundEndGoals(9));
    assert_eq!(Score::Eggs(3).update(9), Score::Eggs(9));
    assert_eq!(Score::StashedFood(3).update(9), Score::StashedFood(9));
    assert_eq!(Score::TuckedCards(3).update(255), Score::TuckedCards(255));
}

#[test]
fn update_leaves_the_receiver_alone() {
    let before = Score::Eggs(4);
    let after = before.update(200);
    assert_eq!(before, Score::Eggs(4));
    assert_eq!(after, Score::Eggs(200));
}

#[test]
fn variant_eq_ignores_points() {
    assert!(variant_eq(&Score::Birds(0), &Score::Birds(200)));
    assert!(variant_eq(&Score::TuckedCards(7), &Score::TuckedCards(7)));
    assert!(!variant_eq(&Score::Birds(5), &Score::Eggs(5)));
    assert!(!variant_eq(&Score::StashedFood(0), &Score::TuckedCards(0)));
}

#[test]
fn variant_eq_on_every_pair() {
    let all = one_of_each(1);
    let other = one_of_each(2);
    for (i, a) in all.iter().enumerate() {
        for (j, b) in other.iter().enumerate() {
            assert_eq!(variant_eq(a, b), i == j);
        }
    }
}

#[test]
fn parse_byte_reads_decimal() {
    assert_eq!(parse_byte("0"), Some(0));
    assert_eq!(parse_byte("42"), Some(42));
    assert_eq!(parse_byte("255"), Some(255));
    assert_eq!(parse_byte("007"), Some(7));
    assert_eq!(parse_byte("+5"), Some(5));
    assert_eq!(parse_byte("0000000000000000000012"), Some(12));
}

#[test]
fn parse_byte_rejects_what_is_no_byte() {
    assert_eq!(parse_byte(""), None);
    assert_eq!(parse_byte("abc"), None);
    assert_eq!(parse_byte("256"), None);
    assert_eq!(parse_byte("300"), None);
    assert_eq!(parse_byte("0300"), None);
    assert_eq!(parse_byte("-1"), None);
    assert_eq!(parse_byte("-0"), None);
    assert_eq!(parse_byte("+"), None);
    assert_eq!(parse_byte("++1"), None);
    assert_eq!(parse_byte(" 1"), None);
    assert_eq!(parse_byte("1 "), None);
    assert_eq!(parse_byte("1_0"), None);
    assert_eq!(parse_byte("4.2"), None);
    assert_eq!(parse_byte("\u{0664}\u{0662}"), None);
}

#[test]
fn empty_cell_reads_as_zero() {
    assert_eq!(edited_score(&Score::Eggs(9), ""), Score::Eggs(0));
}

#[test]
fn typed_number_replaces_the_points() {
    assert_eq!(edited_score(&Score::Birds(1), "42"), Score::Birds(42));
    assert_eq!(edited_score(&Score::TuckedCards(1), "255"), Score::TuckedCards(255));
}

#[test]
fn bad_text_keeps_the_previous_score() {
    assert_eq!(edited_score(&Score::Birds(17), "abc"), Score::Birds(17));
    assert_eq!(edited_score(&Score::StashedFood(17), "300"), Score::StashedFood(17));
    assert_eq!(edited_score(&Score::StashedFood(17), "-3"), Score::StashedFood(17));
}

#[test]
fn new_player_has_every_category_once_and_no_points() {
    let p = Player::new(4, "Dana".to_string());
    assert_eq!(p.id, 4);
    assert_eq!(p.name, "Dana");
    assert_eq!(p.scores, one_of_each(0));
    assert_eq!(p.total_score(), 0);
}

#[test]
fn set_score_replaces_only_its_category() {
    let mut p = Player::new(0, "Eve".to_string());
    p.set_score(Score::Eggs(12));
    assert_eq!(
        p.scores,
        [
            Score::Birds(0),
            Score::BonusCards(0),
            Score::RoundEndGoals(0),
            Score::Eggs(12),
            Score::StashedFood(0),
            Score::TuckedCards(0),
        ]
    );
    assert_eq!(p.id, 0);
    assert_eq!(p.name, "Eve");
}

#[test]
fn set_score_on_each_category_in_turn() {
    let fresh = one_of_each(0);
    let new = one_of_each(33);
    for k in 0..6 {
        let mut p = Player::new(1, "Finn".to_string());
        p.set_score(new[k]);
        for i in 0..6 {
            let expected = if i == k { new[i] } else { fresh[i] };
            assert_eq!(p.scores[i], expected);
        }
        assert_eq!(p.total_score(), 33);
    }
}

#[test]
fn set_score_twice_keeps_the_last() {
    let mut p = Player::new(0, "Gus".to_string());
    p.set_score(Score::Birds(5));
    p.set_score(Score::Birds(2));
    assert_eq!(p.scores[0], Score::Birds(2));
    assert_eq!(p.total_score(), 2);
}

#[test]
fn set_score_takes_the_first_entry_of_a_category() {
    let mut p = Player::new(0, "Hal".to_string());
    p.scores = [
        Score::Eggs(1),
        Score::Birds(2),
        Score::Birds(3),
        Score::Eggs(4),
        Score::Eggs(5),
        Score::Eggs(6),
    ];
    p.set_score(Score::Birds(9));
    assert_eq!(
        p.scores,
        [
            Score::Eggs(1),
            Score::Birds(9),
            Score::Birds(3),
            Score::Eggs(4),
            Score::Eggs(5),
            Score::Eggs(6),
        ]
    );
}

#[test]
fn set_score_without_a_matching_entry_changes_nothing() {
    let mut p = Player::new(0, "Ida".to_string());
    p.scores = [Score::Eggs(1); 6];
    p.set_score(Score::Birds(9));
    assert_eq!(p.scores, [Score::Eggs(1); 6]);
}

#[test]
fn total_score_is_the_sum_of_the_six() {
    let mut p = Player::new(0, "Jo".to_string());
    p.set_score(Score::Birds(1));
    p.set_score(Score::BonusCards(20));
    p.set_score(Score::RoundEndGoals(3));
    p.set_score(Score::Eggs(40));
    p.set_score(Score::StashedFood(5));
    p.set_score(Score::TuckedCards(60));
    assert_eq!(p.total_score(), 129);
}

#[test]
fn total_score_does_not_wrap() {
    let mut p = Player::new(0, "Kim".to_string());
    for s in one_of_each(255) {
        p.set_score(s);
    }
    assert_eq!(p.total_score(), 1530);
}
