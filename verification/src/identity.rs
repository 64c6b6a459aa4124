//! Connection identifiers and time stamps, and their textual form.

use vstd::prelude::*;
use vstd::arithmetic::power::pow;

verus! {

/// Identifies one connection: a 128-bit value, written as a UUID.
pub type ConnectionId = u128;

/// A point in time, in milliseconds since the Unix epoch.
pub type Timestamp = i64;

/// A span of time in milliseconds.
pub type Millis = u64;

/// The lower-case hexadecimal digit for `n`.
pub open spec fn hex_digit(n: int) -> char
    recommends
        0 <= n < 16,
{
    if n < 10 {
        ((48 + n) as u8) as char
    } else {
        ((87 + n) as u8) as char
    }
}

/// The `k`-th of the 32 hexadecimal digits of `id`, the most significant first.
pub open spec fn id_digit(id: ConnectionId, k: int) -> int
    recommends
        0 <= k < 32,
{
    (id as int / pow(16, (31 - k) as nat)) % 16
}

/// Which of the 32 digits stands at place `i` of the hyphenated form.
pub open spec fn digit_place(i: int) -> int {
    if i < 8 {
        i
    } else if i < 13 {
        i - 1
    } else if i < 18 {
        i - 2
    } else if i < 23 {
        i - 3
    } else {
        i - 4
    }
}

/// The hyphenated form of an identifier: 36 characters, the 32 lower-case
/// hexadecimal digits in groups of 8, 4, 4, 4 and 12 with a hyphen between
/// the groups.
pub open spec fn hyphenated(id: ConnectionId) -> Seq<char> {
    Seq::new(
        36,
        |i: int|
            if i == 8 || i == 13 || i == 18 || i == 23 {
                '-'
            } else {
                hex_digit(id_digit(id, digit_place(i)))
            },
    )
}

/// The identifier that the UUID parser reads from a text, if it accepts it.
pub uninterp spec fn parsed_uuid(text: Seq<char>) -> Option<ConnectionId>;

/// Whether a text has the length of one of the four notations of a UUID:
/// 32 digits, the hyphenated form of 36 characters, that form in braces,
/// or that form after `urn:uuid:`.
pub open spec fn is_uuid_length(n: nat) -> bool {
    n == 32 || n == 36 || n == 38 || n == 45
}

/// Calls `uuid::Uuid::parse_str` and hands back the 128-bit value of the
/// identifier it read. Trusted: the parser accepts several notations of a
/// UUID and what it reads depends on the text alone, so its result is named
/// by [`parsed_uuid`] and not spelled out; it reads an identifier only from
/// a text of one of the four lengths, all of whose characters are then
/// ASCII.
#[verifier::external_body]
pub(crate) fn parse_uuid(text: &str) -> (r: Option<ConnectionId>)
    ensures
        r == parsed_uuid(text@),
        r is Some ==> is_uuid_length(text@.len()),
{
    match uuid::Uuid::parse_str(text) {
        Ok(id) => Some(id.as_u128()),
        Err(_) => None,
    }
}

/// Formats an identifier with the `Display` of `uuid::Uuid`. Trusted: the
/// result is the lower-case hyphenated form, and `uuid::Uuid::parse_str`
/// reads the same identifier back from it, as its documentation says of
/// every notation that the crate writes.
#[verifier::external_body]
pub(crate) fn format_uuid(id: ConnectionId) -> (r: String)
    ensures
        r@ == hyphenated(id),
        parsed_uuid(r@) == Some(id),
{
    uuid::Uuid::from_u128(id).to_string()
}

/// Draws a random version-4 identifier with `uuid::Uuid::new_v4`. Trusted,
/// and nothing is claimed of the value. The outside function panics where
/// the operating system gives it no random bytes; no argument decides
/// that.
#[verifier::external_body]
pub(crate) fn random_uuid() -> (r: ConnectionId) {
    uuid::Uuid::new_v4().as_u128()
}

/// Reads the clock with `chrono::Utc::now` and hands back its milliseconds
/// since the epoch, as `DateTime::timestamp_millis` gives them. Trusted,
/// and nothing is claimed of the value. The outside function panics where
/// the clock of the system stands before the epoch; no argument decides
/// that.
#[verifier::external_body]
pub(crate) fn clock_millis() -> (r: Timestamp) {
    chrono::Utc::now().timestamp_millis()
}

} // verus!
