//! Calls into other crates, each with the contract that callers rely on.
use crate::time::Timestamp;
use base64::Engine;
use sha2::Digest;
use vstd::prelude::*;

verus! {

/// The SHA-256 digest of a text.
pub uninterp spec fn sha256_of(text: Seq<char>) -> Seq<u8>;

/// `sha2::Sha256::digest` of the bytes of a text: the digest depends on the text alone and is
/// 32 bytes long.
#[verifier::external_body]
pub(crate) fn sha256(text: &str) -> (r: Vec<u8>)
    ensures
        r@ == sha256_of(text@),
        r.len() == 32,
{
    sha2::Sha256::digest(text.as_bytes()).to_vec()
}

/// What the standard base64 alphabet with canonical padding makes of a text: the decoded
/// bytes, or the text of the failure.
pub uninterp spec fn base64_decoded(text: Seq<char>) -> Result<Seq<u8>, Seq<char>>;

/// `base64::Engine::decode` of `base64::engine::general_purpose::STANDARD` on the bytes of a
/// text: the outcome depends on the text alone; a failure is taken as its text.
#[verifier::external_body]
pub(crate) fn decode_base64(text: &str) -> (r: Result<Vec<u8>, String>)
    ensures
        (match r {
            Ok(v) => Ok(v@),
            Err(e) => Err(e@),
        }) == base64_decoded(text@),
{
    base64::engine::general_purpose::STANDARD.decode(text.as_bytes()).map_err(|e| e.to_string())
}

/// The number of the UUID that a text writes, or the text of the failure.
pub uninterp spec fn parsed_uuid(text: Seq<char>) -> Result<u128, Seq<char>>;

/// `uuid::Uuid::parse_str`: the outcome depends on the text alone; a UUID is taken as its
/// 128-bit number and a failure as its text.
#[verifier::external_body]
pub(crate) fn parse_uuid(text: &str) -> (r: Result<u128, String>)
    ensures
        (match r {
            Ok(n) => Ok(n),
            Err(e) => Err(e@),
        }) == parsed_uuid(text@),
{
    uuid::Uuid::parse_str(text).map(|u| u.as_u128()).map_err(|e| e.to_string())
}

/// Whether `c` is a lower-case hexadecimal digit or a hyphen.
pub open spec fn uuid_char(c: char) -> bool {
    '0' <= c <= '9' || 'a' <= c <= 'f' || c == '-'
}

/// Whether `s` holds nothing but lower-case hexadecimal digits and hyphens.
pub open spec fn uuid_text(s: Seq<char>) -> bool {
    forall|i: int| 0 <= i < s.len() ==> uuid_char(#[trigger] s[i])
}

/// `uuid::Uuid::new_v4` and its display form: a random UUID written as 36 lower-case
/// hexadecimal digits and hyphens, which the crate's own parser reads as a number other than
/// zero. Which UUID comes is chance.
#[verifier::external_body]
pub(crate) fn new_uuid_text() -> (r: String)
    ensures
        r@.len() == 36,
        uuid_text(r@),
        parsed_uuid(r@) is Ok && parsed_uuid(r@)->Ok_0 != 0,
{
    uuid::Uuid::new_v4().to_string()
}

/// The first second of the calendar of `chrono`, of the year -262143.
pub const FIRST_SECOND: i64 = -8334601228800;

/// The last second of the calendar of `chrono`, of the year 262142.
pub const LAST_SECOND: i64 = 8210266876799;

/// Whether an instant is one that the calendar of `chrono` reaches; a nanosecond past the
/// first billion stands for a leap second, at the end of a minute only.
pub open spec fn in_calendar(t: Timestamp) -> bool {
    &&& FIRST_SECOND <= t.secs <= LAST_SECOND
    &&& t.nanos < 2000000000
    &&& t.nanos >= 1000000000 ==> (t.secs as int) % 60 == 59
}

/// The seconds of the instant one nanosecond later.
pub open spec fn next_secs(t: Timestamp) -> int {
    if t.nanos == 999999999 || t.nanos == 1999999999 {
        t.secs + 1
    } else {
        t.secs as int
    }
}

/// The nanoseconds of the instant one nanosecond later.
pub open spec fn next_nanos(t: Timestamp) -> int {
    if t.nanos == 999999999 || t.nanos == 1999999999 {
        0
    } else {
        t.nanos + 1
    }
}

/// `chrono::DateTime::checked_add_signed` of one nanosecond: the next instant, where both
/// instants are in the calendar.
#[verifier::external_body]
pub(crate) fn add_nanosecond(t: Timestamp) -> (r: Option<Timestamp>)
    ensures
        match r {
            Some(n) => in_calendar(t) && n.secs == next_secs(t) && n.nanos == next_nanos(t)
                && n.secs <= LAST_SECOND,
            None => !in_calendar(t) || next_secs(t) > LAST_SECOND,
        },
{
    let from = chrono::DateTime::<chrono::Utc>::from_timestamp(t.secs, t.nanos)?;
    let next = from.checked_add_signed(chrono::Duration::nanoseconds(1))?;
    Some(Timestamp { secs: next.timestamp(), nanos: next.timestamp_subsec_nanos() })
}

/// The RFC 3339 text of an instant of the calendar.
pub uninterp spec fn rfc3339_of(secs: i64, nanos: u32) -> Seq<char>;

/// `chrono::DateTime::to_rfc3339` of an instant in UTC: its text, which depends on the
/// instant alone; an instant outside the calendar has none.
#[verifier::external_body]
pub(crate) fn rfc3339(t: Timestamp) -> (r: Option<String>)
    ensures
        match r {
            Some(s) => in_calendar(t) && s@ == rfc3339_of(t.secs, t.nanos),
            None => !in_calendar(t),
        },
{
    chrono::DateTime::<chrono::Utc>::from_timestamp(t.secs, t.nanos).map(|d| d.to_rfc3339())
}

} // verus!
