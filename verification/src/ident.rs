//! Correlation identifiers: minted by `uuid`, carried as a 128-bit number.

use vstd::prelude::*;

verus! {

/// The version and variant bits of an identifier.
pub const LAYOUT_MASK: u128 = 0x0000_0000_0000_f000_c000_0000_0000_0000;

/// What those bits are in a random (version 4) identifier.
pub const LAYOUT_RANDOM: u128 = 0x0000_0000_0000_4000_8000_0000_0000_0000;

/// Whether `value` has the layout of a random identifier.
pub open spec fn is_random_layout(value: u128) -> bool {
    value & LAYOUT_MASK == LAYOUT_RANDOM
}

/// The lower-case character of one hexadecimal digit; `'0'` above fifteen.
pub open spec fn hex_char(d: nat) -> char {
    if d == 1 {
        '1'
    } else if d == 2 {
        '2'
    } else if d == 3 {
        '3'
    } else if d == 4 {
        '4'
    } else if d == 5 {
        '5'
    } else if d == 6 {
        '6'
    } else if d == 7 {
        '7'
    } else if d == 8 {
        '8'
    } else if d == 9 {
        '9'
    } else if d == 10 {
        'a'
    } else if d == 11 {
        'b'
    } else if d == 12 {
        'c'
    } else if d == 13 {
        'd'
    } else if d == 14 {
        'e'
    } else if d == 15 {
        'f'
    } else {
        '0'
    }
}

/// Sixteen to the power `k`.
pub open spec fn pow16(k: nat) -> nat
    decreases k,
{
    if k == 0 {
        1
    } else {
        16 * pow16((k - 1) as nat)
    }
}

/// The `k`-th of the thirty-two hexadecimal digits of `value`, counted from
/// the most significant.
pub open spec fn hex_digit(value: u128, k: nat) -> nat
    recommends
        k < 32,
{
    (value as nat / pow16((31 - k) as nat)) % 16
}

/// Which hexadecimal digit stands at position `i` of the hyphenated text:
/// the position less the hyphens before it.
pub open spec fn digit_at(i: int) -> nat {
    if i < 8 {
        i as nat
    } else if i < 13 {
        (i - 1) as nat
    } else if i < 18 {
        (i - 2) as nat
    } else if i < 23 {
        (i - 3) as nat
    } else {
        (i - 4) as nat
    }
}

/// The text of an identifier: thirty-two lower-case hexadecimal digits, most
/// significant first, in groups of 8, 4, 4, 4 and 12 with hyphens between.
pub open spec fn hyphenated(value: u128) -> Seq<char> {
    Seq::new(
        36,
        |i: int|
            if i == 8 || i == 13 || i == 18 || i == 23 {
                '-'
            } else {
                hex_char(hex_digit(value, digit_at(i)))
            },
    )
}

/// `uuid::Uuid::new_v4`, taken as a number. Trusted: whatever the random
/// source gave, the version and variant bits are those of a random
/// identifier. Nothing else is known of the value, and two calls are not known
/// to differ.
#[verifier::external_body]
pub(crate) fn random_value() -> (value: u128)
    ensures
        is_random_layout(value),
{
    uuid::Uuid::new_v4().as_u128()
}

/// `to_string` of `uuid::Uuid`, on the identifier with this number. Trusted:
/// the result is the hyphenated lower-case text.
#[verifier::external_body]
pub(crate) fn hyphenated_text(value: u128) -> (text: String)
    ensures
        text@ == hyphenated(value),
{
    uuid::Uuid::from_u128(value).to_string()
}

/// Identifier that ties a client request to what comes back for it.
#[derive(Clone, Copy, Debug, PartialEq, Eq, Structural)]
pub struct CorrelationId {
    /// The identifier as a 128-bit number, first byte most significant.
    pub value: u128,
}

impl CorrelationId {
    /// A fresh random identifier.
    pub fn fresh() -> (id: CorrelationId)
        ensures
            is_random_layout(id.value),
    {
        CorrelationId { value: random_value() }
    }

    /// The identifier as text.
    pub fn text(&self) -> (text: String)
        ensures
            text@ == hyphenated(self.value),
    {
        hyphenated_text(self.value)
    }
}

} // verus!
