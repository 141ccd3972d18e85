//! The roll command: a random ten-digit number, and the name of the run of
//! equal digits that it ends in.

use rand::Rng;
use vstd::prelude::*;
use vstd::string::*;

use crate::decimal::number_text;

verus! {

/// The name of a run of equal digits at the end of a roll.
#[derive(Clone, Copy, Debug, PartialEq, Eq, Structural)]
pub enum Outcome {
    Nothing,
    Dubs,
    Trips,
    Quads,
    Pentas,
    Hexa,
    Septa,
    Octa,
    Nino,
}

/// How many digits at the end of `n` are equal to `digit`; none where `n` is
/// zero.
pub open spec fn trailing_run(n: nat, digit: nat) -> nat
    decreases n,
{
    if n == 0 {
        0
    } else if n % 10 == digit {
        1 + trailing_run(n / 10, digit)
    } else {
        0
    }
}

/// How many digits at the end of `n` are equal to its last digit, that digit
/// included.
pub open spec fn repeats(n: nat) -> nat {
    1 + trailing_run(n / 10, n % 10)
}

/// A number without its sign.
pub open spec fn magnitude(n: int) -> nat {
    if n < 0 {
        (-n) as nat
    } else {
        n as nat
    }
}

/// The outcome of a run of `count` equal digits: one is nothing, two to nine
/// have names, and there is none for any other count.
pub open spec fn outcome_of(count: nat) -> Option<Outcome> {
    if count == 1 {
        Some(Outcome::Nothing)
    } else if count == 2 {
        Some(Outcome::Dubs)
    } else if count == 3 {
        Some(Outcome::Trips)
    } else if count == 4 {
        Some(Outcome::Quads)
    } else if count == 5 {
        Some(Outcome::Pentas)
    } else if count == 6 {
        Some(Outcome::Hexa)
    } else if count == 7 {
        Some(Outcome::Septa)
    } else if count == 8 {
        Some(Outcome::Octa)
    } else if count == 9 {
        Some(Outcome::Nino)
    } else {
        None
    }
}

/// The text that announces an outcome.
pub open spec fn label_of(outcome: Outcome) -> Seq<char> {
    match outcome {
        Outcome::Nothing => ""@,
        Outcome::Dubs => "👌 Dubs"@,
        Outcome::Trips => "🙈 Trips"@,
        Outcome::Quads => "😱 Quads"@,
        Outcome::Pentas => "🤣😂 Penta"@,
        Outcome::Hexa => "👌👌🤔🤔😂😂 Hexa"@,
        Outcome::Septa => "🙊🙉🙈🐵 Septa"@,
        Outcome::Octa => "🅱️Octa"@,
        Outcome::Nino => "💯💯💯 El Niño"@,
    }
}

impl Outcome {
    /// The outcome of a run of `count` equal digits, if it has one.
    pub fn try_from(count: u8) -> (outcome: Option<Outcome>)
        ensures
            outcome == outcome_of(count as nat),
    {
        match count {
            1 => Some(Outcome::Nothing),
            2 => Some(Outcome::Dubs),
            3 => Some(Outcome::Trips),
            4 => Some(Outcome::Quads),
            5 => Some(Outcome::Pentas),
            6 => Some(Outcome::Hexa),
            7 => Some(Outcome::Septa),
            8 => Some(Outcome::Octa),
            9 => Some(Outcome::Nino),
            _ => None,
        }
    }

    /// The text that announces the outcome.
    pub fn label(&self) -> (text: &'static str)
        ensures
            text@ == label_of(*self),
    {
        match self {
            Outcome::Nothing => "",
            Outcome::Dubs => "👌 Dubs",
            Outcome::Trips => "🙈 Trips",
            Outcome::Quads => "😱 Quads",
            Outcome::Pentas => "🤣😂 Penta",
            Outcome::Hexa => "👌👌🤔🤔😂😂 Hexa",
            Outcome::Septa => "🙊🙉🙈🐵 Septa",
            Outcome::Octa => "🅱️Octa",
            Outcome::Nino => "💯💯💯 El Niño",
        }
    }
}

/// How many decimal digits a number has.
spec fn digits(n: nat) -> nat
    decreases n,
{
    if n < 10 {
        1
    } else {
        1 + digits(n / 10)
    }
}

/// A run of digits at the end of a number is no longer than the number.
proof fn lemma_run_within_digits(n: nat, digit: nat)
    ensures
        trailing_run(n, digit) <= digits(n),
    decreases n,
{
    if n != 0 && n % 10 == digit {
        lemma_run_within_digits(n / 10, digit);
    }
}

/// A number of 64 bits without its last digit has at most nineteen digits.
proof fn lemma_digits_of_tenth(n: nat)
    requires
        n <= u64::MAX,
    ensures
        digits(n / 10) <= 19,
{
    reveal_with_fuel(digits, 20);
}

/// Counts the digits at the end of `roll` that are equal to its last digit,
/// that digit included.
pub fn count_repeats(roll: i64) -> (count: u8)
    ensures
        count == repeats(magnitude(roll as int)),
        1 <= count <= 20,
{
    let whole: u64 = if roll >= 0 {
        roll as u64
    } else if roll == i64::MIN {
        9223372036854775808u64
    } else {
        (-roll) as u64
    };
    let suffix: u64 = whole % 10;
    let mut rest: u64 = whole / 10;
    let mut count: u8 = 1;
    proof {
        lemma_run_within_digits(rest as nat, suffix as nat);
        lemma_digits_of_tenth(whole as nat);
    }
    while rest != 0 && rest % 10 == suffix
        invariant
            count + trailing_run(rest as nat, suffix as nat) == repeats(whole as nat),
            repeats(whole as nat) <= 20,
            count >= 1,
        decreases rest,
    {
        rest = rest / 10;
        count = count + 1;
    }
    count
}

/// `rand::Rng::gen_range` on the thread's generator, for the numbers from
/// `low` up to, but not including, `high`. Trusted: the number is in that
/// range.
#[verifier::external_body]
fn random_between(low: i64, high: i64) -> (n: i64)
    requires
        low < high,
    ensures
        low <= n < high,
{
    rand::thread_rng().gen_range(low..high)
}

/// A random number of ten digits.
pub fn random_number() -> (n: i64)
    ensures
        1000000000 <= n < 9999999999,
{
    random_between(1000000000, 9999999999)
}

/// `i64::to_string`. Trusted: the text is the number in decimal digits, with
/// a minus sign before a negative one.
#[verifier::external_body]
fn number_to_text(n: i64) -> (text: String)
    ensures
        text@ == number_text(n as int),
{
    n.to_string()
}

/// The answer to a roll: the number, a space, and what announces its
/// outcome; an apology where the run of equal digits has no name.
pub open spec fn roll_text(roll: int) -> Seq<char> {
    match outcome_of(repeats(magnitude(roll))) {
        Some(outcome) => number_text(roll) + " "@ + label_of(outcome),
        None => "Something weird happened 🤔"@,
    }
}

/// The answer to this roll.
pub fn roll_message(roll: i64) -> (text: String)
    ensures
        text@ == roll_text(roll as int),
{
    let count = count_repeats(roll);
    match Outcome::try_from(count) {
        Some(outcome) => {
            let mut text = number_to_text(roll);
            text.append(" ");
            text.append(outcome.label());
            text
        },
        None => String::from_str("Something weird happened 🤔"),
    }
}

/// Rolls a number and answers it.
pub fn roll() -> (text: String)
    ensures
        exists|n: int| 1000000000 <= n < 9999999999 && text@ == #[trigger] roll_text(n),
{
    let n = random_number();
    roll_message(n)
}

} // verus!
