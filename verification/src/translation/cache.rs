//! Keys and timestamps of the translation cache.
use crate::text::push_char;
use std::hash::BuildHasher;
use vstd::prelude::*;

verus! {

/// One cached translation.
#[derive(Debug, Clone)]
pub struct CacheEntry {
    pub original: String,
    pub translated: String,
    pub provider: String,
    pub target_lang: String,
    pub timestamp: String,
}

/// The lower-case hexadecimal digit of `d` (`d < 16`).
pub open spec fn hex_char(d: nat) -> char {
    if d < 10 {
        (('0' as u32) + d) as char
    } else {
        (('a' as u32) + (d - 10)) as char
    }
}

/// The decimal digit of `d` (`d < 10`).
pub open spec fn dec_char(d: nat) -> char {
    (('0' as u32) + d) as char
}

/// `n` in lower-case hexadecimal without leading zeros, as `format!("{:x}", n)`.
pub open spec fn hex_digits(n: nat) -> Seq<char>
    decreases n,
{
    if n < 16 {
        seq![hex_char(n)]
    } else {
        hex_digits(n / 16).push(hex_char(n % 16))
    }
}

/// `n` in decimal without leading zeros, as `format!("{}", n)`.
pub open spec fn dec_digits(n: nat) -> Seq<char>
    decreases n,
{
    if n < 10 {
        seq![dec_char(n)]
    } else {
        dec_digits(n / 10).push(dec_char(n % 10))
    }
}

/// The value std's `DefaultHasher` gives the string `text`.
pub uninterp spec fn default_hash_of(text: Seq<char>) -> u64;

/// The key a text is cached under: its `DefaultHasher` value in hexadecimal.
pub open spec fn cache_key_of(text: Seq<char>) -> Seq<char> {
    hex_digits(default_hash_of(text) as nat)
}

/// std's `BuildHasher::hash_one` with the default `DefaultHasher` builder:
/// hashes `text` with a fresh `DefaultHasher`, exactly as `DefaultHasher::new`,
/// `Hash::hash` and `Hasher::finish` do one after the other.  The value is
/// named, not stated.
#[verifier::external_body]
fn default_hash(text: &str) -> (h: u64)
    ensures
        h == default_hash_of(text@),
{
    std::hash::BuildHasherDefault::<std::hash::DefaultHasher>::default().hash_one(text)
}

/// The hexadecimal digit of `d`.
fn hex_digit(d: u64) -> (c: char)
    requires
        d < 16,
    ensures
        c == hex_char(d as nat),
{
    match d {
        0 => '0',
        1 => '1',
        2 => '2',
        3 => '3',
        4 => '4',
        5 => '5',
        6 => '6',
        7 => '7',
        8 => '8',
        9 => '9',
        10 => 'a',
        11 => 'b',
        12 => 'c',
        13 => 'd',
        14 => 'e',
        _ => 'f',
    }
}

/// The decimal digit of `d`.
fn dec_digit(d: u64) -> (c: char)
    requires
        d < 10,
    ensures
        c == dec_char(d as nat),
{
    match d {
        0 => '0',
        1 => '1',
        2 => '2',
        3 => '3',
        4 => '4',
        5 => '5',
        6 => '6',
        7 => '7',
        8 => '8',
        _ => '9',
    }
}

/// Appends `n` in lower-case hexadecimal to `s`.
fn push_hex(s: &mut String, n: u64)
    ensures
        final(s)@ == old(s)@ + hex_digits(n as nat),
    decreases n,
{
    if n >= 16 {
        push_hex(s, n / 16);
    }
    push_char(s, hex_digit(n % 16));
}

/// Appends `n` in decimal to `s`.
fn push_dec(s: &mut String, n: u64)
    ensures
        final(s)@ == old(s)@ + dec_digits(n as nat),
    decreases n,
{
    if n >= 10 {
        push_dec(s, n / 10);
    }
    push_char(s, dec_digit(n % 10));
}

/// `n` in lower-case hexadecimal.
pub fn hex_string(n: u64) -> (s: String)
    ensures
        s@ == hex_digits(n as nat),
{
    let mut s = String::new();
    push_hex(&mut s, n);
    s
}

/// `n` in decimal.
pub fn decimal_string(n: u64) -> (s: String)
    ensures
        s@ == dec_digits(n as nat),
{
    let mut s = String::new();
    push_dec(&mut s, n);
    s
}

/// The key under which translations of `text` are cached.
pub fn cache_key(text: &str) -> (k: String)
    ensures
        k@ == cache_key_of(text@),
{
    hex_string(default_hash(text))
}

#[verifier::external_type_specification]
#[verifier::external_body]
pub struct ExSystemTime(std::time::SystemTime);

/// std's `SystemTime::now`: the current time of the system clock.
#[verifier::external_body]
fn system_time_now() -> std::time::SystemTime {
    std::time::SystemTime::now()
}

/// std's `SystemTime::duration_since(UNIX_EPOCH)`: the time elapsed from the
/// epoch to `t`, or `None` where `t` lies before the epoch.
#[verifier::external_body]
fn duration_since_epoch(t: &std::time::SystemTime) -> Option<std::time::Duration> {
    t.duration_since(std::time::UNIX_EPOCH).ok()
}

/// std's `Duration::as_secs`: the whole seconds of `d`.
#[verifier::external_body]
fn whole_seconds(d: &std::time::Duration) -> u64 {
    d.as_secs()
}

/// The timestamp text for `secs` seconds since the epoch, where the clock
/// gave a time after it; `0` where it gave none.
pub fn timestamp_text(secs: Option<u64>) -> (s: String)
    ensures
        s@ == dec_digits(
            match secs {
                Some(n) => n as nat,
                None => 0,
            },
        ),
{
    let n: u64 = match secs {
        Some(n) => n,
        None => 0,
    };
    decimal_string(n)
}

/// The current Unix time in seconds, in decimal (`0` where the clock lies
/// before the epoch).
pub fn unix_ts() -> (s: String)
    ensures
        exists|secs: u64| s@ == dec_digits(secs as nat),
{
    let now = system_time_now();
    let secs: Option<u64> = match duration_since_epoch(&now) {
        Some(d) => Some(whole_seconds(&d)),
        None => None,
    };
    let s = timestamp_text(secs);
    proof {
        match secs {
            Some(n) => assert(s@ == dec_digits(n as nat)),
            None => assert(s@ == dec_digits(0u64 as nat)),
        }
    }
    s
}

/// Every digit of a decimal rendering is one of `0`..=`9`.
pub proof fn lemma_dec_digits_are_digits(n: nat)
    ensures
        dec_digits(n).len() >= 1,
        forall|i: int| 0 <= i < dec_digits(n).len() ==> '0' <= #[trigger] dec_digits(n)[i] <= '9',
    decreases n,
{
    if n >= 10 {
        lemma_dec_digits_are_digits(n / 10);
    }
}

} // verus!
