//! What the engine takes from its surroundings: random identifiers and the
//! clock. Nothing is proved of these values; the functions that use them are
//! verified for every value they may get.

use vstd::prelude::*;
use crate::types::opt_text;

verus! {

/// The RFC 3339 text of the instant `secs` seconds and `nanos` nanoseconds
/// after the Unix epoch in UTC, where chrono can represent that instant.
pub uninterp spec fn rfc3339_of(secs: i64, nanos: u32) -> Option<Seq<char>>;

/// A hexadecimal digit in lower case.
pub open spec fn is_lower_hex(c: char) -> bool {
    ('0' <= c <= '9') || ('a' <= c <= 'f')
}

/// The text of a version 4 UUID in the hyphenated form: 36 characters, a
/// hyphen after the 8th, 12th, 16th and 20th digit, all digits hexadecimal
/// in lower case, the 13th digit `4` for the version, and the 17th digit
/// one of `8`, `9`, `a`, `b` for the variant.
pub open spec fn is_uuid_v4_text(s: Seq<char>) -> bool {
    &&& s.len() == 36
    &&& forall|i: int|
        #![trigger s[i]]
        0 <= i < 36 ==> if i == 8 || i == 13 || i == 18 || i == 23 {
            s[i] == '-'
        } else {
            is_lower_hex(s[i])
        }
    &&& s[14] == '4'
    &&& (s[19] == '8' || s[19] == '9' || s[19] == 'a' || s[19] == 'b')
}

/// The RFC 3339 text of some instant at or after the Unix epoch, to the
/// nanosecond.
pub open spec fn is_instant_text(text: Seq<char>) -> bool {
    exists|secs: i64, nanos: u32|
        secs >= 0 && nanos < 1_000_000_000 && #[trigger] rfc3339_of(secs, nanos) == Some(text)
}

/// `uuid::Uuid::new_v4`, in the hyphenated form that `Uuid` displays as.
/// The value is random; what holds of every outcome is its form: `new_v4`
/// sets the version and the variant, and `Display` writes the hyphenated
/// form in lower case. The call fails only where the operating system has
/// no random bytes to give.
#[verifier::external_body]
pub(crate) fn fresh_id() -> (id: String)
    ensures
        is_uuid_v4_text(id@),
{
    uuid::Uuid::new_v4().to_string()
}

/// `SystemTime::elapsed` of std on the Unix epoch: the time since then in
/// whole seconds and the nanoseconds of the second begun, which
/// `Duration::subsec_nanos` keeps below one billion, or nothing if the clock
/// is set before the epoch.
#[verifier::external_body]
pub(crate) fn since_epoch() -> (r: Option<(u64, u32)>)
    ensures
        r matches Some((secs, nanos)) ==> nanos < 1_000_000_000,
{
    match std::time::UNIX_EPOCH.elapsed() {
        Ok(d) => Some((d.as_secs(), d.subsec_nanos())),
        Err(_) => None,
    }
}

/// `chrono::DateTime::from_timestamp` followed by `DateTime::to_rfc3339`:
/// the text of an instant, which depends on the instant alone.
#[verifier::external_body]
pub(crate) fn rfc3339(secs: i64, nanos: u32) -> (r: Option<String>)
    ensures
        opt_text(r) == rfc3339_of(secs, nanos),
{
    match chrono::DateTime::from_timestamp(secs, nanos) {
        Some(t) => Some(t.to_rfc3339()),
        None => None,
    }
}

/// The text of an instant given as the time since the Unix epoch, where the
/// seconds fit a signed count and chrono can represent the instant.
pub fn timestamp_text(since: Option<(u64, u32)>) -> (r: Option<String>)
    ensures
        opt_text(r) == match since {
            Some((secs, nanos)) => if secs <= i64::MAX {
                rfc3339_of(secs as i64, nanos)
            } else {
                None
            },
            None => None,
        },
{
    match since {
        Some((secs, nanos)) => {
            if secs <= i64::MAX as u64 {
                rfc3339(secs as i64, nanos)
            } else {
                None
            }
        },
        None => None,
    }
}

/// The current time as RFC 3339 text, if the clock gives a time that can be
/// written so: the text, if there is one, is that of an instant at or after
/// the Unix epoch.
pub fn current_timestamp() -> (r: Option<String>)
    ensures
        r matches Some(text) ==> is_instant_text(text@),
{
    let since = since_epoch();
    let r = timestamp_text(since);
    proof {
        if r is Some {
            let (secs, nanos) = since.unwrap();
            assert(rfc3339_of(secs as i64, nanos) == Some(r.unwrap()@));
        }
    }
    r
}

} // verus!
