//! Identifiers of person records: 128-bit values with a canonical text form.

use uuid::Uuid;
use vstd::prelude::*;

verus! {

/// The identifier of a person record.
#[derive(Clone, Copy, Debug, PartialEq, Eq, Structural)]
pub struct PersonId {
    pub value: u128,
}

/// The lower-case hexadecimal digit that shows `n`, for `n` from 0 to 15.
pub open spec fn hex_digit(n: int) -> char {
    if n == 0 {
        '0'
    } else if n == 1 {
        '1'
    } else if n == 2 {
        '2'
    } else if n == 3 {
        '3'
    } else if n == 4 {
        '4'
    } else if n == 5 {
        '5'
    } else if n == 6 {
        '6'
    } else if n == 7 {
        '7'
    } else if n == 8 {
        '8'
    } else if n == 9 {
        '9'
    } else if n == 10 {
        'a'
    } else if n == 11 {
        'b'
    } else if n == 12 {
        'c'
    } else if n == 13 {
        'd'
    } else if n == 14 {
        'e'
    } else {
        'f'
    }
}

/// 16 to the power `n`.
pub open spec fn pow16(n: nat) -> nat
    decreases n,
{
    if n == 0 {
        1
    } else {
        16 * pow16((n - 1) as nat)
    }
}

/// The `k`-th of the 32 hexadecimal digits of `value`, counted from the most
/// significant one.
pub open spec fn nibble(value: u128, k: int) -> int {
    (value as int / pow16((31 - k) as nat) as int) % 16
}

/// Whether the canonical text has a hyphen at position `i`.
pub open spec fn is_hyphen_position(i: int) -> bool {
    i == 8 || i == 13 || i == 18 || i == 23
}

/// The number of hyphens before position `i` of the canonical text.
pub open spec fn hyphens_before(i: int) -> int {
    if i < 8 {
        0
    } else if i < 13 {
        1
    } else if i < 18 {
        2
    } else if i < 23 {
        3
    } else {
        4
    }
}

/// The character at position `i` of the canonical text of `value`.
pub open spec fn canonical_char(value: u128, i: int) -> char {
    if is_hyphen_position(i) {
        '-'
    } else {
        hex_digit(nibble(value, i - hyphens_before(i)))
    }
}

/// The canonical text of an identifier: its 32 lower-case hexadecimal digits,
/// most significant first, in groups of 8, 4, 4, 4 and 12 with a hyphen
/// between two groups.
pub open spec fn canonical(value: u128) -> Seq<char> {
    Seq::new(36, |i: int| canonical_char(value, i))
}

/// Whether `value` carries the marks of a random identifier: version 4 in
/// the thirteenth hexadecimal digit, and `10` in the two highest bits of the
/// seventeenth.
pub open spec fn is_random_form(value: u128) -> bool {
    nibble(value, 12) == 4 && nibble(value, 16) / 4 == 2
}

/// The identifier that a text stands for, if it stands for one: what
/// `uuid::Uuid::parse_str` makes of the text.
pub uninterp spec fn parsed_id(text: Seq<char>) -> Option<u128>;

/// `uuid::Uuid::new_v4`: a random identifier. Whatever the random source
/// gave, the version and variant marks of a random identifier are set.
#[verifier::external_body]
fn random_value() -> (value: u128)
    ensures
        is_random_form(value),
{
    Uuid::new_v4().as_u128()
}

/// `uuid::Uuid::parse_str`: the identifier that the text stands for, or none
/// where the text is in none of the forms that the parser reads.
#[verifier::external_body]
fn parse_value(text: &str) -> (value: Option<u128>)
    ensures
        value == parsed_id(text@),
{
    match Uuid::parse_str(text) {
        Ok(id) => Some(id.as_u128()),
        Err(_) => None,
    }
}

/// `uuid::Uuid::to_string` on `uuid::Uuid::from_u128`: the hyphenated
/// lower-case form, which `uuid::Uuid::parse_str` reads back as the same
/// identifier.
#[verifier::external_body]
fn render_value(value: u128) -> (text: String)
    ensures
        text@ == canonical(value),
        parsed_id(text@) == Some(value),
{
    Uuid::from_u128(value).to_string()
}

impl PersonId {
    /// A new random identifier.
    pub fn fresh() -> (id: PersonId)
        ensures
            is_random_form(id.value),
    {
        PersonId { value: random_value() }
    }

    /// Reads an identifier from a text.
    pub fn parse(text: &str) -> (id: Option<PersonId>)
        ensures
            id == Self::parsed(text@),
    {
        match parse_value(text) {
            Some(value) => Some(PersonId { value }),
            None => None,
        }
    }

    /// The identifier that a text stands for, if any.
    pub open spec fn parsed(text: Seq<char>) -> Option<PersonId> {
        match parsed_id(text) {
            Some(value) => Some(PersonId { value }),
            None => None,
        }
    }

    /// The canonical text of the identifier. Reading it gives the identifier
    /// back.
    pub fn to_text(&self) -> (text: String)
        ensures
            text@ == canonical(self.value),
            Self::parsed(text@) == Some(*self),
    {
        render_value(self.value)
    }
}

} // verus!
