//! The rules of the number-guessing game.

use std::cmp::Ordering;
use vstd::prelude::*;

verus! {

/// How a guess stands against the secret.
#[derive(Clone, Copy, Debug, PartialEq, Eq, Structural)]
pub enum Verdict {
    TooSmall,
    TooBig,
    Win,
}

/// The secret that a raw random number stands for: a number from 1 to 100.
pub open spec fn secret_of(raw: u32) -> int {
    raw % 100 + 1
}

/// Three-way comparison of two numbers.
pub fn cmp(a: u32, b: u32) -> (o: Ordering)
    ensures
        a < b <==> o == Ordering::Less,
        a > b <==> o == Ordering::Greater,
        a == b <==> o == Ordering::Equal,
{
    if a < b {
        Ordering::Less
    } else if a > b {
        Ordering::Greater
    } else {
        Ordering::Equal
    }
}

/// Folds a raw random number into the range of secrets.
pub fn secret_from(raw: u32) -> (secret: u32)
    ensures
        secret == secret_of(raw),
        1 <= secret <= 100,
{
    raw % 100 + 1
}

/// Calls `rand::random::<u32>()`. The number depends on chance, so nothing is
/// claimed of it.
#[verifier::external_body]
fn random_u32() -> (raw: u32) {
    rand::random::<u32>()
}

/// Draws a fresh secret between 1 and 100.
pub fn draw_secret() -> (secret: u32)
    ensures
        1 <= secret <= 100,
{
    let raw: u32 = random_u32();
    secret_from(raw)
}

/// Judges a guess against the secret.
pub fn judge(guess: u32, secret: u32) -> (verdict: Verdict)
    ensures
        guess < secret <==> verdict == Verdict::TooSmall,
        guess > secret <==> verdict == Verdict::TooBig,
        guess == secret <==> verdict == Verdict::Win,
{
    match cmp(guess, secret) {
        Ordering::Less => Verdict::TooSmall,
        Ordering::Greater => Verdict::TooBig,
        Ordering::Equal => Verdict::Win,
    }
}

/// What one line of input leads to.
#[derive(Clone, Copy, Debug, PartialEq, Eq, Structural)]
pub enum Turn {
    /// The line holds no number; the player is asked again.
    NotANumber,
    /// The line holds a guess, which was judged.
    Judged(Verdict),
}

/// What `str::trim` returns for a text.
pub uninterp spec fn trimmed(line: Seq<char>) -> Seq<char>;

/// What parsing a text as a `u32` gives, `None` where it is no such number.
pub uninterp spec fn parsed_u32(text: Seq<char>) -> Option<u32>;

/// Calls `str::trim`, which drops leading and trailing whitespace. The result
/// depends on the line alone; the contract only gives it a name.
#[verifier::external_body]
fn trim_line(line: &str) -> (text: &str)
    ensures
        text@ == trimmed(line@),
{
    line.trim()
}

/// Calls `str::parse::<u32>` and drops the error. The result depends on the
/// text alone; the contract only gives it a name.
#[verifier::external_body]
fn parse_number(text: &str) -> (number: Option<u32>)
    ensures
        number == parsed_u32(text@),
{
    text.parse::<u32>().ok()
}

/// The turn that a guess, or the lack of one, leads to.
pub open spec fn turn_of(guess: Option<u32>, secret: u32) -> Turn {
    match guess {
        None => Turn::NotANumber,
        Some(g) => if g < secret {
            Turn::Judged(Verdict::TooSmall)
        } else if g > secret {
            Turn::Judged(Verdict::TooBig)
        } else {
            Turn::Judged(Verdict::Win)
        },
    }
}

/// What the player is told after a turn.
pub open spec fn message_of(turn: Turn) -> Seq<char> {
    match turn {
        Turn::NotANumber => "please input a number!"@,
        Turn::Judged(Verdict::TooSmall) => "Too small!"@,
        Turn::Judged(Verdict::TooBig) => "Too big!"@,
        Turn::Judged(Verdict::Win) => "You win!"@,
    }
}

/// The guess that a line of input holds, if it holds one.
pub fn read_guess(line: &str) -> (guess: Option<u32>)
    ensures
        guess == parsed_u32(trimmed(line@)),
{
    parse_number(trim_line(line))
}

/// Judges a guess that was already read.
pub fn turn_for(guess: Option<u32>, secret: u32) -> (turn: Turn)
    ensures
        turn == turn_of(guess, secret),
{
    match guess {
        None => Turn::NotANumber,
        Some(g) => Turn::Judged(judge(g, secret)),
    }
}

/// Reads a line of input and judges the guess in it.
pub fn play_turn(line: &str, secret: u32) -> (turn: Turn)
    ensures
        turn == turn_of(parsed_u32(trimmed(line@)), secret),
{
    turn_for(read_guess(line), secret)
}

/// Whether a turn ends the game: only a win does.
pub fn ends_game(turn: Turn) -> (over: bool)
    ensures
        over == (turn == Turn::Judged(Verdict::Win)),
{
    match turn {
        Turn::Judged(Verdict::Win) => true,
        _ => false,
    }
}

/// What the player is told after a turn.
pub fn message(turn: Turn) -> (text: &'static str)
    ensures
        text@ == message_of(turn),
{
    match turn {
        Turn::NotANumber => "please input a number!",
        Turn::Judged(Verdict::TooSmall) => "Too small!",
        Turn::Judged(Verdict::TooBig) => "Too big!",
        Turn::Judged(Verdict::Win) => "You win!",
    }
}

} // verus!
