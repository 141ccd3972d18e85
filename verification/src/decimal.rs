//! Numbers in decimal digits.

use vstd::prelude::*;

verus! {

/// The decimal digits of a number, as ASCII bytes, without leading zeros.
pub open spec fn decimal(n: nat) -> Seq<u8>
    decreases n,
{
    if n < 10 {
        seq![(48 + n) as u8]
    } else {
        decimal(n / 10).push((48 + n % 10) as u8)
    }
}

/// The decimal digits of a number, as text.
pub open spec fn decimal_text(n: nat) -> Seq<char> {
    decimal(n).map_values(|digit: u8| digit as char)
}

/// A number as text: its decimal digits, after a minus sign if it is
/// negative.
pub open spec fn number_text(n: int) -> Seq<char> {
    if n < 0 {
        seq!['-'] + decimal_text((-n) as nat)
    } else {
        decimal_text(n as nat)
    }
}

} // verus!
