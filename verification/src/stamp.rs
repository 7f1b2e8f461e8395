//! What marks one generated document: a fresh identity and the time of its
//! creation. Both come from outside the library and differ from call to call.

use crate::text::has_suffix;
use vstd::prelude::*;

verus! {

/// Whether `c` is a decimal digit or one of the letters `a` to `f`.
pub open spec fn is_lower_hex(c: char) -> bool {
    ('0' <= c && c <= '9') || ('a' <= c && c <= 'f')
}

/// Whether position `i` of a hyphenated UUID holds a hyphen.
pub open spec fn is_hyphen_position(i: int) -> bool {
    i == 8 || i == 13 || i == 18 || i == 23
}

/// Whether `c` may stand at position `i` of a hyphenated UUID.
pub open spec fn is_uuid_char(i: int, c: char) -> bool {
    if is_hyphen_position(i) {
        c == '-'
    } else {
        is_lower_hex(c)
    }
}

/// The hyphenated lower-case text of a version 4 UUID: 36 characters in the
/// groups 8-4-4-4-12, the version digit `4` and a variant digit of `8`, `9`,
/// `a` or `b`.
pub open spec fn is_uuid_v4_text(s: Seq<char>) -> bool {
    &&& s.len() == 36
    &&& forall|i: int| 0 <= i < 36 ==> is_uuid_char(i, #[trigger] s[i])
    &&& s[14] == '4'
    &&& (s[19] == '8' || s[19] == '9' || s[19] == 'a' || s[19] == 'b')
}

/// A timestamp that names its offset from UTC as `+00:00`. Date and time
/// before it take at least 19 characters.
pub open spec fn is_utc_timestamp(s: Seq<char>) -> bool {
    s.len() >= 25 && has_suffix(s, "+00:00"@)
}

/// A new random identity, from `uuid::Uuid::new_v4` and the `Display` form
/// of the result.
///
/// Trusted: `new_v4` sets the version and variant bits of 128 random bits,
/// and `Display` writes a `Uuid` hyphenated in lower case. Which identity
/// comes back is left open. The call panics on a system that cannot supply
/// random bytes.
#[verifier::external_body]
pub(crate) fn fresh_serial_id() -> (id: String)
    ensures
        is_uuid_v4_text(id@),
{
    uuid::Uuid::new_v4().to_string()
}

/// The current time, from `chrono::Utc::now` and `DateTime::to_rfc3339`.
///
/// Trusted: `to_rfc3339` writes date, `T`, time and the offset, which for
/// `Utc` is `+00:00`. Which time comes back is left open. The call panics
/// where the system clock stands before 1970.
#[verifier::external_body]
pub(crate) fn current_timestamp() -> (timestamp: String)
    ensures
        is_utc_timestamp(timestamp@),
{
    chrono::Utc::now().to_rfc3339()
}

} // verus!
