//! Values that come from outside the request: fresh session tokens and the
//! clock.

use vstd::prelude::*;

verus! {

/// How long a session token stays valid, in milliseconds (five minutes).
pub const TOKEN_LIFETIME_MS: i64 = 300000i64;

pub open spec fn is_lower_hex(c: char) -> bool {
    ('0' <= c && c <= '9') || ('a' <= c && c <= 'f')
}

/// Whether `s` is the hyphenated, lower-case text of a version-4 UUID:
/// 36 characters, hyphens at 8, 13, 18 and 23, lower-case hexadecimal digits
/// elsewhere, the version digit `4` at 14 and a variant digit of `8`, `9`,
/// `a` or `b` at 19.
pub open spec fn is_uuid_v4_text(s: Seq<char>) -> bool {
    &&& s.len() == 36
    &&& forall|i: int|
        0 <= i < 36 ==> if i == 8 || i == 13 || i == 18 || i == 23 {
            #[trigger] s[i] == '-'
        } else {
            is_lower_hex(s[i])
        }
    &&& s[14] == '4'
    &&& (s[19] == '8' || s[19] == '9' || s[19] == 'a' || s[19] == 'b')
}

/// Calls `uuid::Uuid::new_v4` and formats the result with `to_string`.
/// Claimed: whatever random value came back, its text is a hyphenated
/// lower-case version-4 UUID. Which UUID is left unsaid; it rests on the
/// operating system's random source, and the crate panics when that fails.
#[verifier::external_body]
pub(crate) fn new_token() -> (res: String)
    ensures
        is_uuid_v4_text(res@),
{
    uuid::Uuid::new_v4().to_string()
}

/// Calls `mongodb::bson::DateTime::now` and takes `timestamp_millis`.
/// Nothing is claimed of the result: it is the clock's reading, in
/// milliseconds since the epoch.
#[verifier::external_body]
pub(crate) fn now_millis() -> (res: i64) {
    mongodb::bson::DateTime::now().timestamp_millis()
}

} // verus!
