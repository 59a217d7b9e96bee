//! Helpers: reading a byte from text, and comparing categories.

use crate::score::Score;
use vstd::prelude::*;

verus! {

/// Whether `c` is one of the ten decimal digits.
pub open spec fn is_digit(c: char) -> bool {
    '0' <= c <= '9'
}

/// The number that a decimal digit stands for.
pub open spec fn digit_value(c: char) -> nat {
    (c as nat - '0' as nat) as nat
}

/// The number that a row of decimal digits denotes, most significant first.
pub open spec fn decimal_value(digits: Seq<char>) -> nat
    decreases digits.len(),
{
    if digits.len() == 0 {
        0
    } else {
        decimal_value(digits.drop_last()) * 10 + digit_value(digits.last())
    }
}

/// What is left of `text` once one leading plus sign, if there is one, is
/// taken away.
pub open spec fn unsigned_part(text: Seq<char>) -> Seq<char> {
    if text.len() > 0 && text[0] == '+' {
        text.drop_first()
    } else {
        text
    }
}

/// The byte that `text` denotes: an optional plus sign, then at least one
/// decimal digit and nothing else, with a value of at most 255. Any other
/// text denotes none.
pub open spec fn byte_value(text: Seq<char>) -> Option<u8> {
    let digits = unsigned_part(text);
    if digits.len() > 0 && (forall|i: int| 0 <= i < digits.len() ==> is_digit(#[trigger] digits[i]))
        && decimal_value(digits) <= u8::MAX {
        Some(decimal_value(digits) as u8)
    } else {
        None
    }
}

/// `core::num::ParseIntError` of the standard library, the error of
/// `str::parse` on an integer type. Nothing is said of what it holds.
#[verifier::external_type_specification]
#[verifier::external_body]
pub struct ExParseIntError(core::num::ParseIntError);

/// `str::parse::<u8>` of the standard library. It accepts an optional plus
/// sign followed by decimal digits only, and fails on an empty text, on any
/// other character and on a value above 255; the contract says this through
/// `byte_value` and is taken on trust.
#[verifier::external_body]
fn parse_u8(val: &str) -> (parsed: Result<u8, core::num::ParseIntError>)
    ensures
        parsed is Ok <==> byte_value(val@) is Some,
        parsed matches Ok(v) ==> byte_value(val@) == Some(v),
{
    val.parse::<u8>()
}

/// Reads `val` as a byte written in decimal.
pub fn parse_byte(val: &str) -> (byte: Option<u8>)
    ensures
        byte == byte_value(val@),
{
    match parse_u8(val) {
        Ok(v) => Some(v),
        Err(_) => None,
    }
}

/// The byte that a text typed into a score cell stands for: an empty cell
/// reads as zero, any other text as `byte_value` has it.
pub open spec fn entry_value(text: Seq<char>) -> Option<u8> {
    if text.len() == 0 {
        Some(0u8)
    } else {
        byte_value(text)
    }
}

/// The score that a cell holds once `text` was typed into it.
pub open spec fn entered(current: Score, text: Seq<char>) -> Score {
    match entry_value(text) {
        Some(points) => current.with_points(points),
        None => current,
    }
}

/// The text of a single zero denotes the byte zero.
pub proof fn lemma_zero_text()
    ensures
        byte_value("0"@) == Some(0u8),
{
    reveal_strlit("0");
    let zero = "0"@;
    assert(unsigned_part(zero) == zero);
    assert(zero.drop_last().len() == 0);
    assert(decimal_value(zero) == decimal_value(zero.drop_last()) * 10 + digit_value(zero.last()));
    assert(decimal_value(zero.drop_last()) == 0);
}

/// Typing into a cell never changes its category; an empty cell holds no
/// points, a text that denotes a byte holds that byte, and on any other
/// text the cell keeps the score it had.
pub proof fn lemma_entered(current: Score, text: Seq<char>)
    ensures
        entered(current, text).category() == current.category(),
        text.len() == 0 ==> entered(current, text).points() == 0,
        text.len() > 0 && byte_value(text) is Some ==> entered(current, text).points()
            == byte_value(text)->0,
        text.len() > 0 && byte_value(text) is None ==> entered(current, text) == current,
{
}

/// The score that takes the place of `current` when `text` is typed into
/// its cell: an empty text is read as `"0"`; where the text denotes a byte,
/// the score of the same category with that many points; else `current`.
pub fn edited_score(current: &Score, text: &str) -> (edited: Score)
    ensures
        edited == entered(*current, text@),
{
    let val = if text.is_empty() {
        proof {
            lemma_zero_text();
        }
        "0"
    } else {
        text
    };
    match parse_byte(val) {
        Some(points) => current.update(points),
        None => *current,
    }
}

/// Whether `a` and `b` are scores of the same category.
pub fn variant_eq(a: &Score, b: &Score) -> (same: bool)
    ensures
        same == a.same_category(*b),
{
    match (a, b) {
        (Score::Birds(_), Score::Birds(_)) => true,
        (Score::BonusCards(_), Score::BonusCards(_)) => true,
        (Score::RoundEndGoals(_), Score::RoundEndGoals(_)) => true,
        (Score::Eggs(_), Score::Eggs(_)) => true,
        (Score::StashedFood(_), Score::StashedFood(_)) => true,
        (Score::TuckedCards(_), Score::TuckedCards(_)) => true,
        _ => false,
    }
}

} // verus!
