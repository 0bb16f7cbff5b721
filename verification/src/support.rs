//! Calls into the clock, the random number generator, the UUID generator,
//! the SHA-256 implementation and the RFC 3339 parser.
use vstd::prelude::*;

use chrono::{DateTime, Utc};
use rand::distr::Alphanumeric;
use rand::seq::SliceRandom;
use rand::RngExt;
use sha2::{Digest, Sha256};

verus! {

/// An instant, in microseconds since 1970-01-01T00:00:00Z.
pub type Timestamp = i64;

/// Microseconds in one minute.
pub const MICROS_PER_MINUTE: i64 = 60_000_000;

/// Microseconds in one day.
pub const MICROS_PER_DAY: i64 = 86_400_000_000;

/// Microseconds in one second.
pub const MICROS_PER_SECOND: i64 = 1_000_000;

/// The first instant that chrono represents: -262143-01-01T00:00:00Z.
pub const MIN_INSTANT: i64 = -8_334_601_315_200_000_000;

/// The last instant, to the microsecond, that chrono represents:
/// +262142-12-31T23:59:59.999999Z.
pub const MAX_INSTANT: i64 = 8_210_266_876_799_999_999;

/// Whether `t` lies within the range of instants that chrono represents.
pub open spec fn valid_instant(t: int) -> bool {
    MIN_INSTANT <= t <= MAX_INSTANT
}

/// The current instant, read from `chrono::Utc::now`.
/// Its value depends on the clock; a `DateTime` of chrono lies within its
/// calendar, so its microseconds are a valid instant.
#[verifier::external_body]
pub(crate) fn now_micros() -> (t: Timestamp)
    ensures
        valid_instant(t as int),
{
    Utc::now().timestamp_micros()
}

/// The instant denoted by an RFC 3339 text, in microseconds, or `None`
/// where the text is not RFC 3339.
pub uninterp spec fn spec_rfc3339_micros(s: Seq<char>) -> Option<i64>;

/// `chrono::DateTime::parse_from_rfc3339` followed by `timestamp_micros`.
/// The result is a function of the text alone (the offset is part of the
/// text); what it is on a given text is named, not stated. A parsed instant
/// is one that chrono represents.
#[verifier::external_body]
pub(crate) fn parse_rfc3339_micros(s: &str) -> (r: Option<Timestamp>)
    ensures
        r == spec_rfc3339_micros(s@),
        r matches Some(t) ==> valid_instant(t as int),
{
    match DateTime::parse_from_rfc3339(s) {
        Ok(dt) => Some(dt.timestamp_micros()),
        Err(_) => None,
    }
}

/// A fresh random UUID from `uuid::Uuid::new_v4`, as its 128-bit value.
/// Its value is random; uuid sets the version nibble to 4 and the variant
/// bits to `10`.
#[verifier::external_body]
pub(crate) fn new_uuid() -> (r: u128)
    ensures
        r & 0xF000_C000_0000_0000_0000u128 == 0x4000_8000_0000_0000_0000u128,
{
    uuid::Uuid::new_v4().as_u128()
}

/// Whether a byte is an ASCII letter or digit.
pub open spec fn is_ascii_alnum(b: u8) -> bool {
    (0x41 <= b <= 0x5A) || (0x61 <= b <= 0x7A) || (0x30 <= b <= 0x39)
}

/// One byte drawn by `rand::rng().sample(Alphanumeric)`. It is random;
/// rand draws it from the 62 ASCII letters and digits.
#[verifier::external_body]
pub(crate) fn random_alphanumeric() -> (b: u8)
    ensures
        is_ascii_alnum(b),
{
    rand::rng().sample(Alphanumeric)
}

/// Shuffles the ids in place with `SliceRandom::shuffle` and `rand::rng()`.
/// The order that results is random; rand only swaps elements, so the same
/// ids remain, each as often as before.
#[verifier::external_body]
pub(crate) fn shuffle_ids(v: &mut Vec<u128>)
    ensures
        final(v)@.to_multiset() == old(v)@.to_multiset(),
        final(v)@.len() == old(v)@.len(),
{
    v.shuffle(&mut rand::rng())
}

/// The SHA-256 digest of a byte sequence.
pub uninterp spec fn spec_sha256(data: Seq<u8>) -> Seq<u8>;

/// `sha2::Sha256::digest` of the bytes. The digest is named, not stated;
/// it always has 32 bytes.
#[verifier::external_body]
pub(crate) fn sha256_digest(data: &[u8]) -> (r: Vec<u8>)
    ensures
        r@ == spec_sha256(data@),
        r@.len() == 32,
{
    Sha256::digest(data).to_vec()
}

/// `String::push`: appends one character.
#[verifier::external_body]
pub(crate) fn push_char(s: &mut String, c: char)
    ensures
        final(s)@ == old(s)@.push(c),
{
    s.push(c)
}

/// The lowercase hexadecimal digit for a value below 16.
pub open spec fn hex_digit(n: int) -> char {
    if n < 10 {
        (48 + n) as char
    } else {
        (87 + n) as char
    }
}

/// Executable form of `hex_digit`.
pub fn hex_char(n: u8) -> (c: char)
    requires
        n < 16,
    ensures
        c == hex_digit(n as int),
{
    if n < 10 {
        (48u8 + n) as char
    } else {
        (87u8 + n) as char
    }
}

/// The lowercase hexadecimal text of a byte sequence, two digits a byte.
pub open spec fn hex_text(bytes: Seq<u8>) -> Seq<char>
    decreases bytes.len(),
{
    if bytes.len() == 0 {
        Seq::empty()
    } else {
        hex_text(bytes.drop_last()).push(hex_digit((bytes.last() / 16) as int)).push(
            hex_digit((bytes.last() % 16) as int),
        )
    }
}

/// Formats bytes as lowercase hexadecimal text.
pub fn to_hex(bytes: &[u8]) -> (r: String)
    ensures
        r@ == hex_text(bytes@),
{
    let mut r = String::new();
    let mut i: usize = 0;
    while i < bytes.len()
        invariant
            i <= bytes@.len(),
            r@ == hex_text(bytes@.take(i as int)),
        decreases bytes@.len() - i,
    {
        let b = bytes[i];
        proof {
            assert(bytes@.take(i as int + 1).drop_last() == bytes@.take(i as int));
        }
        push_char(&mut r, hex_char(b / 16));
        push_char(&mut r, hex_char(b % 16));
        i = i + 1;
    }
    proof {
        assert(bytes@.take(bytes@.len() as int) == bytes@);
    }
    r
}

/// Whether text position `i` of a hyphenated UUID holds a hyphen.
pub open spec fn uuid_dash_at(i: int) -> bool {
    i == 8 || i == 13 || i == 18 || i == 23
}

/// The index of the hexadecimal digit that text position `i` of a
/// hyphenated UUID shows, counted from the most significant.
pub open spec fn uuid_nibble_index(i: int) -> int {
    if i < 8 {
        i
    } else if i < 13 {
        i - 1
    } else if i < 18 {
        i - 2
    } else if i < 23 {
        i - 3
    } else {
        i - 4
    }
}

/// The `k`-th hexadecimal digit of a 128-bit value, most significant first.
pub open spec fn nibble(id: u128, k: int) -> u128 {
    (id >> ((4 * (31 - k)) as u128)) & 0xF
}

/// The hyphenated lowercase text of a UUID, as `uuid::Uuid` displays it.
pub open spec fn uuid_text(id: u128) -> Seq<char> {
    Seq::new(
        36,
        |i: int|
            if uuid_dash_at(i) {
                '-'
            } else {
                hex_digit(nibble(id, uuid_nibble_index(i)) as int)
            },
    )
}

/// Formats a UUID given by its 128-bit value, as `Uuid::to_string` does.
pub fn uuid_string(id: u128) -> (r: String)
    ensures
        r@ == uuid_text(id),
{
    let mut r = String::new();
    let mut i: usize = 0;
    let mut k: u128 = 0;
    while i < 36
        invariant
            i <= 36,
            k as int == (if i <= 8 {
                i as int
            } else if i <= 13 {
                i - 1
            } else if i <= 18 {
                i - 2
            } else if i <= 23 {
                i - 3
            } else {
                i - 4
            }),
            r@.len() == i,
            forall|j: int| 0 <= j < i ==> r@[j] == uuid_text(id)[j],
        decreases 36 - i,
    {
        if i == 8 || i == 13 || i == 18 || i == 23 {
            push_char(&mut r, '-');
        } else {
            let sh: u128 = 4 * (31 - k);
            let n: u128 = (id >> sh) & 0xF;
            assert(n < 16) by (bit_vector)
                requires
                    n == (id >> sh) & 0xF,
            ;
            push_char(&mut r, hex_char(n as u8));
            k = k + 1;
        }
        i = i + 1;
    }
    assert(r@ == uuid_text(id));
    r
}

} // verus!
