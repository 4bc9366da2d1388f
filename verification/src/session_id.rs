//! The session identifier: a 128-bit value that travels as text.
//!
//! Identifiers are drawn, read and written by the `uuid` crate; this module
//! states what the rest of the library relies on.

use vstd::arithmetic::power::pow;
use vstd::prelude::*;

verus! {

/// A server-issued handle that a client presents to show that it is still
/// authenticated.
#[derive(Clone, Copy, Debug, PartialEq, Eq, Structural)]
pub struct SessionId {
    pub value: u128,
}

/// The 128-bit value that `uuid::Uuid::parse_str` reads out of `text`, or
/// `None` where it rejects the text.
pub uninterp spec fn parsed_uuid(text: Seq<char>) -> Option<u128>;

/// The identifier that a text stands for, if it is well formed.
pub open spec fn parsed_session(text: Seq<char>) -> Option<SessionId> {
    match parsed_uuid(text) {
        Some(value) => Some(SessionId { value }),
        None => None,
    }
}

/// The hexadecimal digit `k` of a 128-bit value, counted from the most
/// significant (digit 0) to the least (digit 31).
pub open spec fn hex_digit_at(value: u128, k: int) -> int {
    (value as int / pow(16, (31 - k) as nat)) % 16
}

/// The lower-case character of a hexadecimal digit.
pub open spec fn hex_char(digit: int) -> char {
    seq!['0', '1', '2', '3', '4', '5', '6', '7', '8', '9', 'a', 'b', 'c', 'd', 'e', 'f'][digit]
}

/// Whether position `i` of the canonical text holds a hyphen.
pub open spec fn is_hyphen_position(i: int) -> bool {
    i == 8 || i == 13 || i == 18 || i == 23
}

/// Which hexadecimal digit stands at position `i` of the canonical text,
/// where that position holds no hyphen.
pub open spec fn digit_index(i: int) -> int {
    if i < 8 {
        i
    } else if i < 13 {
        i - 1
    } else if i < 18 {
        i - 2
    } else if i < 23 {
        i - 3
    } else {
        i - 4
    }
}

/// The canonical text of an identifier: 32 lower-case hexadecimal digits,
/// most significant first, in groups of 8, 4, 4, 4 and 12 joined by hyphens.
pub open spec fn canonical_text(value: u128) -> Seq<char> {
    Seq::new(
        36,
        |i: int|
            if is_hyphen_position(i) {
                '-'
            } else {
                hex_char(hex_digit_at(value, digit_index(i)))
            },
    )
}

/// The marks of a randomly drawn identifier: digit 12 is 4 and digit 16 is
/// one of 8, 9, a and b.
pub open spec fn is_random_form(value: u128) -> bool {
    hex_digit_at(value, 12) == 4 && hex_digit_at(value, 16) / 4 == 2
}

/// Calls `uuid::Uuid::parse_str`, the parser behind `Uuid::from_str`, and
/// hands out the value it read. Trusted: the answer is `parsed_uuid` of the
/// text, that is, it depends on the text alone.
#[verifier::external_body]
fn uuid_parse(text: &str) -> (value: Option<u128>)
    ensures
        value == parsed_uuid(text@),
{
    match uuid::Uuid::parse_str(text) {
        Ok(id) => Some(id.as_u128()),
        Err(_) => None,
    }
}

/// Calls `uuid::Uuid::new_v4`. Trusted: whatever value is drawn carries the
/// version and variant marks that the crate sets on every such identifier.
#[verifier::external_body]
fn uuid_random() -> (value: u128)
    ensures
        is_random_form(value),
{
    uuid::Uuid::new_v4().as_u128()
}

/// Calls `to_string` on the `uuid::Uuid` of a value. Trusted: the text is the
/// hyphenated lower-case form, and `uuid::Uuid::parse_str` reads the value
/// back out of it.
#[verifier::external_body]
fn uuid_text(value: u128) -> (text: String)
    ensures
        text@ == canonical_text(value),
        parsed_uuid(text@) == Some(value),
{
    uuid::Uuid::from_u128(value).to_string()
}

impl SessionId {
    /// Reads an identifier out of a text; `None` where the text is not well
    /// formed.
    pub fn parse(text: &str) -> (id: Option<SessionId>)
        ensures
            id == parsed_session(text@),
    {
        match uuid_parse(text) {
            Some(value) => Some(SessionId { value }),
            None => None,
        }
    }

    /// Draws a fresh random identifier.
    pub fn mint() -> (id: SessionId)
        ensures
            is_random_form(id.value),
    {
        SessionId { value: uuid_random() }
    }

    /// The canonical text of the identifier, which `parse` reads back.
    pub fn to_text(&self) -> (text: String)
        ensures
            text@ == canonical_text(self.value),
            parsed_session(text@) == Some(*self),
    {
        uuid_text(self.value)
    }
}

} // verus!
