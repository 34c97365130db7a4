//! Identifiers of sessions and repositories.
//!
//! An identifier is the 128-bit value of a UUID. Its text is the canonical
//! hyphenated form.

use vstd::prelude::*;

verus! {

/// Identifies a session.
pub type SessionId = u128;

/// Identifies a repository.
pub type RepoId = u128;

/// The sixteen lower-case hexadecimal digits.
pub open spec fn hex_digits() -> Seq<char> {
    seq!['0', '1', '2', '3', '4', '5', '6', '7', '8', '9', 'a', 'b', 'c', 'd', 'e', 'f']
}

/// The `k`-th of the 32 hexadecimal digits of `id`, the most significant
/// being digit 0.
pub open spec fn nibble(id: u128, k: int) -> int
    recommends
        0 <= k < 32,
{
    ((id >> ((124 - 4 * k) as u128)) & 0xf) as int
}

/// How many hyphens stand before position `i` of the canonical form.
pub open spec fn hyphens_before(i: int) -> int {
    if i < 8 {
        0
    } else if i < 13 {
        1
    } else if i < 18 {
        2
    } else if i < 23 {
        3
    } else {
        4
    }
}

/// The canonical text of an identifier: 32 lower-case hexadecimal digits,
/// the most significant first, in groups of 8, 4, 4, 4 and 12 that hyphens
/// separate.
pub open spec fn uuid_text(id: u128) -> Seq<char> {
    Seq::new(
        36,
        |i: int|
            if i == 8 || i == 13 || i == 18 || i == 23 {
                '-'
            } else {
                hex_digits()[nibble(id, i - hyphens_before(i))]
            },
    )
}

/// `uuid::Uuid::from_u128` followed by the `Display` of `uuid::Uuid`.
/// The claim is that the text is the hyphenated lower-case form of the
/// 128-bit value, as `uuid_text` spells it out.
#[verifier::external_body]
pub(crate) fn format_uuid(id: u128) -> (s: String)
    ensures
        s@ == uuid_text(id),
{
    uuid::Uuid::from_u128(id).to_string()
}

} // verus!
