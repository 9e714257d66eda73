//! The library's boundary with `std`, `chrono`, `uuid`, `base64` and
//! `serde_json`: declarations of the outside types it carries, and the
//! wrappers through which it calls outside functions. Every contract in this
//! file is trusted, not proved.
use vstd::prelude::*;
use base64::Engine;

verus! {

/// `std::time::Instant`, carried opaquely (session creation and activity times).
#[verifier::external_type_specification]
#[verifier::external_body]
pub struct ExInstant(std::time::Instant);

/// `serde_json::Value`, carried opaquely as the raw body of a model reply.
#[verifier::external_type_specification]
#[verifier::external_body]
pub struct ExJsonValue(serde_json::Value);

/// Calls `std::time::Instant::now`. Nothing is claimed of the result: it
/// depends on the clock.
#[verifier::external_body]
pub(crate) fn instant_now() -> std::time::Instant {
    std::time::Instant::now()
}

/// Calls `std::time::Instant::elapsed`. Nothing is claimed of the result: it
/// depends on the clock.
#[verifier::external_body]
pub(crate) fn instant_elapsed(instant: &std::time::Instant) -> std::time::Duration {
    instant.elapsed()
}

/// Calls `std::time::Duration::as_secs`. `Duration` is opaque here, so nothing
/// is claimed of the whole seconds it returns.
#[verifier::external_body]
pub(crate) fn duration_as_secs(duration: &std::time::Duration) -> u64 {
    duration.as_secs()
}

/// Calls `chrono::Utc::now` and splits the instant it returns into whole
/// seconds since the Unix epoch and the nanoseconds past that second (one for
/// one: `chrono::DateTime::from_timestamp` rebuilds it). The claim, from the
/// crate's source: `Utc::now` builds the instant from the system clock's
/// duration since the epoch (it panics on a clock before the epoch), so the
/// seconds are not negative and the nanoseconds are below one second. Which
/// instant it is depends on the clock and is left unsaid.
#[verifier::external_body]
pub(crate) fn utc_now_parts() -> (r: (i64, u32))
    ensures
        r.0 >= 0,
        r.1 < 1_000_000_000,
{
    let now = chrono::Utc::now();
    (now.timestamp(), now.timestamp_subsec_nanos())
}

/// A lower-case hexadecimal digit.
pub open spec fn is_lower_hex(c: char) -> bool {
    ('0' as u32 <= c as u32 <= '9' as u32) || ('a' as u32 <= c as u32 <= 'f' as u32)
}

/// The hyphenated lower-case text of a version 4 (random) UUID:
/// `xxxxxxxx-xxxx-4xxx-yxxx-xxxxxxxxxxxx`, where each `x` is a hexadecimal digit
/// and `y` is one of `8`, `9`, `a`, `b`.
pub open spec fn is_uuid_v4_text(s: Seq<char>) -> bool {
    &&& s.len() == 36
    &&& forall|i: int|
        0 <= i < 36 ==> (if i == 8 || i == 13 || i == 18 || i == 23 {
            s[i] == '-'
        } else {
            is_lower_hex(#[trigger] s[i])
        })
    &&& s[14] == '4'
    &&& (s[19] == '8' || s[19] == '9' || s[19] == 'a' || s[19] == 'b')
}

/// Calls `uuid::Uuid::new_v4` and renders the id as text. The claim, from the
/// crate's source: `new_v4` masks random bits so that the version nibble is 4
/// and the variant nibble is one of 8, 9, a, b, and `Display` writes the
/// hyphenated lower-case form. Which random id it is is left unsaid.
#[verifier::external_body]
pub(crate) fn new_v4_id() -> (r: String)
    ensures
        is_uuid_v4_text(r@),
{
    uuid::Uuid::new_v4().to_string()
}

/// The character of a 6-bit value in the standard base64 alphabet
/// `A-Z a-z 0-9 + /`.
pub open spec fn base64_digit(v: int) -> char {
    if v < 26 {
        (v + 65) as char
    } else if v < 52 {
        (v + 71) as char
    } else if v < 62 {
        (v - 4) as char
    } else if v == 62 {
        '+'
    } else {
        '/'
    }
}

/// The RFC 4648 base64 encoding with the standard alphabet and `=` padding:
/// each group of three bytes becomes four characters, and a final group of
/// one or two bytes is padded to four characters with `=`.
pub open spec fn base64_standard(bytes: Seq<u8>) -> Seq<char>
    decreases bytes.len(),
{
    if bytes.len() == 0 {
        Seq::empty()
    } else if bytes.len() == 1 {
        let b0 = bytes[0] as int;
        seq![base64_digit(b0 / 4), base64_digit((b0 % 4) * 16), '=', '=']
    } else if bytes.len() == 2 {
        let b0 = bytes[0] as int;
        let b1 = bytes[1] as int;
        seq![
            base64_digit(b0 / 4),
            base64_digit((b0 % 4) * 16 + b1 / 16),
            base64_digit((b1 % 16) * 4),
            '=',
        ]
    } else {
        let b0 = bytes[0] as int;
        let b1 = bytes[1] as int;
        let b2 = bytes[2] as int;
        seq![
            base64_digit(b0 / 4),
            base64_digit((b0 % 4) * 16 + b1 / 16),
            base64_digit((b1 % 16) * 4 + b2 / 64),
            base64_digit(b2 % 64),
        ] + base64_standard(bytes.subrange(3, bytes.len() as int))
    }
}

/// Calls `base64::Engine::encode` on the `STANDARD` engine (standard alphabet,
/// padding on). The claim: the result is the RFC 4648 encoding
/// `base64_standard` of the input. The crate's `encode` panics when
/// the encoded length, `4 * ceil(len / 3)`, does not fit in `usize`; that input
/// is excluded.
#[verifier::external_body]
pub(crate) fn base64_encode(bytes: &[u8]) -> (r: String)
    requires
        4 * ((bytes@.len() + 2) / 3) <= usize::MAX,
    ensures
        r@ == base64_standard(bytes@),
{
    base64::engine::general_purpose::STANDARD.encode(bytes)
}

/// What `str::to_lowercase` returns: the Unicode lower-case mapping of the
/// text (its full statement takes the Unicode tables).
pub uninterp spec fn unicode_lowercase(s: Seq<char>) -> Seq<char>;

/// Calls `str::to_lowercase`. The claim: the result is `unicode_lowercase` of
/// the input.
#[verifier::external_body]
pub(crate) fn to_lowercase(s: &str) -> (r: String)
    ensures
        r@ == unicode_lowercase(s@),
{
    s.to_lowercase()
}

/// What `std::path::Path::extension` returns for a path given as text: the
/// part of the final file name after its last `.`, or `None` when there is no
/// file name, no `.`, or only a leading `.`.
pub uninterp spec fn path_extension(path: Seq<char>) -> Option<Seq<char>>;

/// Calls `std::path::Path::extension` on the path written as `path`, and turns
/// the extension into text (it is a slice of `path`, so it is valid UTF-8).
/// The claim: the result is `path_extension` of the input.
#[verifier::external_body]
pub(crate) fn extension_of(path: &str) -> (r: Option<String>)
    ensures
        r matches Some(e) ==> path_extension(path@) == Some(e@),
        r is None ==> path_extension(path@) is None,
{
    std::path::Path::new(path).extension().map(|e| e.to_string_lossy().into_owned())
}

/// `i` is a reading of the monotonic clock: a value `Instant::now` returned.
pub closed spec fn instant_reading(i: std::time::Instant) -> bool {
    call_ensures(instant_now, (), i)
}

/// `d` is a reading of the time elapsed since `from`: a value that
/// `Instant::elapsed` returned for `from`.
pub closed spec fn elapsed_reading(from: std::time::Instant, d: std::time::Duration) -> bool {
    call_ensures(instant_elapsed, (&from,), d)
}

/// `secs` is the whole seconds of `d`, as `Duration::as_secs` returned them.
pub closed spec fn secs_reading(d: std::time::Duration, secs: u64) -> bool {
    call_ensures(duration_as_secs, (&d,), secs)
}

/// `(secs, nanos)` is a reading of the UTC clock, as `utc_now_parts` returned it.
pub closed spec fn utc_reading(secs: i64, nanos: u32) -> bool {
    call_ensures(utc_now_parts, (), (secs, nanos))
}

pub(crate) proof fn note_instant(i: std::time::Instant)
    requires
        call_ensures(instant_now, (), i),
    ensures
        instant_reading(i),
{
}

pub(crate) proof fn note_elapsed(from: std::time::Instant, d: std::time::Duration)
    requires
        call_ensures(instant_elapsed, (&from,), d),
    ensures
        elapsed_reading(from, d),
{
}

pub(crate) proof fn note_secs(d: std::time::Duration, secs: u64)
    requires
        call_ensures(duration_as_secs, (&d,), secs),
    ensures
        secs_reading(d, secs),
{
}

pub(crate) proof fn note_utc(secs: i64, nanos: u32)
    requires
        call_ensures(utc_now_parts, (), (secs, nanos)),
    ensures
        utc_reading(secs, nanos),
{
}

/// Every reading of the UTC clock is an instant at or after the Unix epoch
/// with its nanoseconds below one second.
pub proof fn law_utc_reading_is_valid(secs: i64, nanos: u32)
    requires
        utc_reading(secs, nanos),
    ensures
        secs >= 0,
        nanos < 1_000_000_000,
{
}

} // verus!
