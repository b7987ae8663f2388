use rand::Rng;
use vstd::prelude::*;

use crate::utils::Point;

verus! {

/// The smallest number the guessing game may pick.
pub const SECRET_LOW: i32 = 0;

/// The largest number the guessing game may pick.
pub const SECRET_HIGH: i32 = 1;

/// What one line of input does to a round of the guessing game.
#[derive(Debug, Clone, Copy, PartialEq, Eq)]
pub enum Turn {
    /// The guess was the secret: the round is over.
    Win,
    /// The guess was another number: ask again.
    Again,
    /// The line held no number.
    NotANumber,
}

/// Whether `c` has the Unicode White_Space property.
pub open spec fn is_white_space(c: char) -> bool {
    let v = c as u32;
    ||| 0x09 <= v <= 0x0D
    ||| v == 0x20 || v == 0x85 || v == 0xA0 || v == 0x1680
    ||| 0x2000 <= v <= 0x200A
    ||| v == 0x2028 || v == 0x2029 || v == 0x202F || v == 0x205F || v == 0x3000
}

/// `s` without its leading white space.
pub open spec fn trim_start(s: Seq<char>) -> Seq<char>
    decreases s.len(),
{
    if s.len() > 0 && is_white_space(s[0]) {
        trim_start(s.drop_first())
    } else {
        s
    }
}

/// `s` without its trailing white space.
pub open spec fn trim_end(s: Seq<char>) -> Seq<char>
    decreases s.len(),
{
    if s.len() > 0 && is_white_space(s.last()) {
        trim_end(s.drop_last())
    } else {
        s
    }
}

/// `s` without its leading and trailing white space.
pub open spec fn trim(s: Seq<char>) -> Seq<char> {
    trim_end(trim_start(s))
}

/// Whether `c` is one of the ASCII digits.
pub open spec fn is_digit(c: char) -> bool {
    '0' <= c <= '9'
}

/// The number that the digits of `s` spell in base ten.
pub open spec fn digits_value(s: Seq<char>) -> int
    decreases s.len(),
{
    if s.len() == 0 {
        0
    } else {
        digits_value(s.drop_last()) * 10 + (s.last() as int - '0' as int)
    }
}

/// The `i32` that `s` spells in base ten, with an optional sign in front, if any.
pub open spec fn decimal_i32(s: Seq<char>) -> Option<i32> {
    let signed = s.len() > 0 && (s[0] == '-' || s[0] == '+');
    let digits = if signed { s.drop_first() } else { s };
    let value = if signed && s[0] == '-' { -digits_value(digits) } else { digits_value(digits) };
    if digits.len() > 0 && (forall|i: int| 0 <= i < digits.len() ==> is_digit(#[trigger] digits[i]))
        && i32::MIN <= value <= i32::MAX {
        Some(value as i32)
    } else {
        None
    }
}

/// The turn that a line of input makes against `secret`.
pub open spec fn turn_for(line: Seq<char>, secret: i32) -> Turn {
    match decimal_i32(trim(line)) {
        None => Turn::NotANumber,
        Some(guess) => if guess == secret {
            Turn::Win
        } else {
            Turn::Again
        },
    }
}

/// Relies on rand's `thread_rng().gen_range` over an inclusive range: a number
/// within the bounds, which must not be empty.
#[verifier::external_body]
fn random_between(low: i32, high: i32) -> (r: i32)
    requires
        low <= high,
    ensures
        low <= r <= high,
{
    rand::thread_rng().gen_range(low..=high)
}

/// Relies on `str::trim`: leading and trailing Unicode White_Space removed.
#[verifier::external_body]
fn trimmed(s: &str) -> (r: &str)
    ensures
        r@ == trim(s@),
{
    s.trim()
}

/// Relies on `i32::from_str`: an optional `+` or `-`, then base ten digits,
/// accepted only where the value fits.
#[verifier::external_body]
fn parse_i32(s: &str) -> (r: Option<i32>)
    ensures
        r == decimal_i32(s@),
{
    s.parse::<i32>().ok()
}

/// Picks the secret of a round, between `SECRET_LOW` and `SECRET_HIGH`.
pub fn draw_secret() -> (r: i32)
    ensures
        SECRET_LOW <= r <= SECRET_HIGH,
{
    random_between(SECRET_LOW, SECRET_HIGH)
}

/// The guess written on `line`, white space around it ignored.
pub fn read_guess(line: &str) -> (r: Option<i32>)
    ensures
        r == decimal_i32(trim(line@)),
{
    parse_i32(trimmed(line))
}

/// Judges one line of input against `secret`.
pub fn take_turn(line: &str, secret: i32) -> (t: Turn)
    ensures
        t == turn_for(line@, secret),
{
    match read_guess(line) {
        None => Turn::NotANumber,
        Some(guess) => if guess == secret {
            Turn::Win
        } else {
            Turn::Again
        },
    }
}

/// The displacement of an extra move.
pub open spec fn bonus_move() -> Point<i64> {
    Point { x: 10i64, y: -5i64 }
}

/// The extra move that a roll grants: one for a roll of zero, none otherwise.
pub fn extra_move(roll: i32) -> (r: Option<Point<i64>>)
    ensures
        roll == 0 ==> r == Some(bonus_move()),
        roll != 0 ==> r is None,
{
    if roll == 0 {
        Some(Point { x: 10, y: -5 })
    } else {
        None
    }
}

/// Rolls zero or one for an extra move.
pub fn roll_extra_move() -> (r: Option<Point<i64>>)
    ensures
        r is None || r == Some(bonus_move()),
{
    extra_move(random_between(0, 1))
}

} // verus!
