//! Identifiers of rooms and users: 128-bit values that travel as text.

use vstd::arithmetic::power::pow;
use vstd::prelude::*;

verus! {

/// The identifier of a room or of a user.
#[derive(Clone, Copy, Debug, PartialEq, Eq, Structural, Hash)]
pub struct Uuid(pub u128);

/// The identifier that a text stands for, if it stands for one. It is what
/// `uuid::Uuid::parse_str` accepts: thirty-two hexadecimal digits, plain, in
/// five hyphenated groups, in braces or behind `urn:uuid:`.
pub uninterp spec fn parsed_uuid(text: Seq<char>) -> Option<u128>;

/// The lower-case hexadecimal digit of a value below sixteen.
pub open spec fn hex_digit(nibble: int) -> char {
    seq!['0', '1', '2', '3', '4', '5', '6', '7', '8', '9', 'a', 'b', 'c', 'd', 'e', 'f'][nibble]
}

/// The `k`-th group of four bits of an identifier, counted from the most
/// significant one.
pub open spec fn nibble_at(id: u128, k: int) -> int {
    (id as int / pow(16, (31 - k) as nat)) % 16
}

/// The number of hyphens that stand before position `i` of the hyphenated
/// form.
pub open spec fn hyphens_before(i: int) -> int {
    if i < 8 {
        0
    } else if i < 13 {
        1
    } else if i < 18 {
        2
    } else if i < 23 {
        3
    } else {
        4
    }
}

/// The hyphenated form of an identifier: thirty-two lower-case hexadecimal
/// digits, most significant first, in groups of 8, 4, 4, 4 and 12.
pub open spec fn hyphenated_text(id: u128) -> Seq<char> {
    Seq::new(
        36,
        |i: int|
            if i == 8 || i == 13 || i == 18 || i == 23 {
                '-'
            } else {
                hex_digit(nibble_at(id, i - hyphens_before(i)))
            },
    )
}

/// What a text means as an identifier.
pub open spec fn uuid_of_text(text: Seq<char>) -> Option<Uuid> {
    match parsed_uuid(text) {
        Some(value) => Some(Uuid(value)),
        None => None,
    }
}

/// Calls `uuid::Uuid::parse_str` and hands back the 128-bit value of the
/// identifier it read, or `None` where it reports an error. The result is
/// taken to depend on the text alone.
#[verifier::external_body]
fn parse_uuid(text: &str) -> (id: Option<Uuid>)
    ensures
        id == uuid_of_text(text@),
{
    match uuid::Uuid::parse_str(text) {
        Ok(id) => Some(Uuid(id.as_u128())),
        Err(_) => None,
    }
}

/// Formats through `uuid::Uuid`'s `Display`, which writes the hyphenated
/// lower-case form. That form is one of those `uuid::Uuid::parse_str`
/// documents as accepted, so the text reads back as the same identifier.
#[verifier::external_body]
fn format_uuid(id: Uuid) -> (text: String)
    ensures
        text@ == hyphenated_text(id.0),
        parsed_uuid(text@) == Some(id.0),
{
    uuid::Uuid::from_u128(id.0).to_string()
}

impl Uuid {
    /// Reads an identifier from text.
    pub fn parse(text: &str) -> (id: Option<Uuid>)
        ensures
            id == uuid_of_text(text@),
    {
        parse_uuid(text)
    }

    /// Writes the identifier in its hyphenated form, which `parse` reads
    /// back as the same identifier.
    pub fn to_text(&self) -> (text: String)
        ensures
            text@ == hyphenated_text(self.0),
            uuid_of_text(text@) == Some(*self),
    {
        format_uuid(*self)
    }
}

} // verus!
