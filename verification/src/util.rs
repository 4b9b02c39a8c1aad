//! Utility functions: address parsing, clock access, and the integer
//! formatting helpers the rest of the crate and its drivers use.

use vstd::prelude::*;

verus! {

/// Declares solana_sdk's public-key type, so signatures here can carry
/// it; its values stay opaque to the verifier.
#[verifier::external_type_specification]
#[verifier::external_body]
pub struct ExPubkey(solana_sdk::pubkey::Pubkey);

/// Whether a string is a well-formed base58 encoding of a 32-byte public
/// key. The outcome depends on the string alone.
pub uninterp spec fn spec_pubkey_parse_ok(s: Seq<char>) -> bool;

/// Relies on solana_sdk::pubkey::Pubkey::from_str: decoding is a pure
/// function of the string, succeeding exactly on well-formed base58 input
/// of the right length.
#[verifier::external_body]
pub fn parse_pubkey(key: &str) -> (r: Result<solana_sdk::pubkey::Pubkey, String>)
    ensures
        r is Ok <==> spec_pubkey_parse_ok(key@),
{
    core::str::FromStr::from_str(key).map_err(|e: solana_sdk::pubkey::ParsePubkeyError| e.to_string())
}

/// Relies on chrono::Utc::now: seconds since the Unix epoch at the time of
/// the call. Nothing is promised of the value; callers state what holds of
/// every outcome.
#[verifier::external_body]
pub fn now_timestamp() -> i64 {
    chrono::Utc::now().timestamp()
}

/// Relies on chrono::Utc::now: milliseconds since the Unix epoch at the
/// time of the call. Nothing is promised of the value.
#[verifier::external_body]
pub fn now_timestamp_millis() -> i64 {
    chrono::Utc::now().timestamp_millis()
}

/// The characters corresponding to a sequence of ASCII bytes.
pub open spec fn ascii_chars(s: Seq<u8>) -> Seq<char> {
    s.map_values(|b: u8| b as char)
}

/// Relies on String::from_utf8: a vector of ASCII bytes is valid UTF-8 and
/// decodes to the string whose characters are exactly those bytes.
#[verifier::external_body]
fn ascii_string(bytes: Vec<u8>) -> (r: String)
    requires
        forall|i: int| 0 <= i < bytes@.len() ==> bytes@[i] < 128,
    ensures
        r@ == ascii_chars(bytes@),
{
    match String::from_utf8(bytes) {
        Ok(s) => s,
        Err(_) => String::new(),
    }
}

/// Decimal digits of `n`, most significant first, as ASCII bytes.
pub open spec fn spec_dec_bytes(n: nat) -> Seq<u8>
    decreases n,
{
    if n < 10 {
        seq![(48 + n) as u8]
    } else {
        spec_dec_bytes(n / 10) + seq![(48 + n % 10) as u8]
    }
}

/// Appends the decimal digits of `n` to `v`.
fn push_dec_u64(v: &mut Vec<u8>, n: u64)
    ensures
        final(v)@ == old(v)@ + spec_dec_bytes(n as nat),
        forall|i: int| old(v)@.len() <= i < final(v)@.len() ==> 48 <= #[trigger] final(v)@[i] <= 57,
    decreases n,
{
    if n >= 10 {
        push_dec_u64(v, n / 10);
    }
    let d: u8 = (n % 10) as u8;
    v.push(48 + d);
    proof {
        assert(v@ =~= old(v)@ + spec_dec_bytes(n as nat));
    }
}

/// The decimal representation of `n`.
pub fn u64_to_string(n: u64) -> (r: String)
    ensures
        r@ == ascii_chars(spec_dec_bytes(n as nat)),
{
    let mut v: Vec<u8> = Vec::new();
    push_dec_u64(&mut v, n);
    proof {
        assert(v@ =~= spec_dec_bytes(n as nat));
    }
    ascii_string(v)
}

/// Decimal digits of a signed value, with a leading minus sign when
/// negative, as ASCII bytes.
pub open spec fn spec_i64_dec_bytes(n: int) -> Seq<u8> {
    if n < 0 {
        seq![45u8] + spec_dec_bytes((-n) as nat)
    } else {
        spec_dec_bytes(n as nat)
    }
}

/// The decimal representation of a signed value.
pub fn i64_to_string(n: i64) -> (r: String)
    ensures
        r@ == ascii_chars(spec_i64_dec_bytes(n as int)),
{
    let mut v: Vec<u8> = Vec::new();
    if n < 0 {
        v.push(45);
        let magnitude: u64 = (-(n as i128)) as u64;
        push_dec_u64(&mut v, magnitude);
        proof {
            assert(v@ =~= spec_i64_dec_bytes(n as int));
        }
    } else {
        push_dec_u64(&mut v, n as u64);
        proof {
            assert(v@ =~= spec_i64_dec_bytes(n as int));
        }
    }
    ascii_string(v)
}

/// `amount` rendered with a decimal point placed `decimals` digits from
/// the right, as ASCII bytes: `1234` with 2 decimals is `12.34`, `5` with
/// 3 decimals is `0.005`, and 0 decimals renders the plain integer.
pub open spec fn spec_format_amount(amount: nat, decimals: nat) -> Seq<u8> {
    let d = spec_dec_bytes(amount);
    if decimals == 0 {
        d
    } else if d.len() > decimals {
        d.insert(d.len() - decimals, 46u8)
    } else {
        seq![48u8, 46u8] + Seq::new((decimals - d.len()) as nat, |i: int| 48u8) + d
    }
}

/// Renders a raw token amount as a decimal string with `decimals`
/// fractional digits.
pub fn format_amount(amount: u64, decimals: u8) -> (r: String)
    ensures
        r@ == ascii_chars(spec_format_amount(amount as nat, decimals as nat)),
{
    let dec: usize = decimals as usize;
    let mut digits: Vec<u8> = Vec::new();
    push_dec_u64(&mut digits, amount);
    proof {
        assert(digits@ =~= spec_dec_bytes(amount as nat));
    }
    if dec == 0 {
        return ascii_string(digits);
    }
    if digits.len() > dec {
        let idx: usize = digits.len() - dec;
        let ghost pre = digits@;
        digits.insert(idx, 46);
        proof {
            pre.insert_ensures(idx as int, 46u8);
        }
        ascii_string(digits)
    } else {
        let mut out: Vec<u8> = Vec::new();
        out.push(48);
        out.push(46);
        let pad: usize = dec - digits.len();
        let mut k: usize = 0;
        while k < pad
            invariant
                k <= pad,
                out@ == seq![48u8, 46u8] + Seq::new(k as nat, |i: int| 48u8),
            decreases pad - k,
        {
            out.push(48);
            k += 1;
            proof {
                assert(out@ =~= seq![48u8, 46u8] + Seq::new(k as nat, |i: int| 48u8));
            }
        }
        out.append(&mut digits);
        proof {
            assert(out@ =~= spec_format_amount(amount as nat, decimals as nat));
        }
        ascii_string(out)
    }
}

/// A nonnegative duration in seconds rendered as minutes, hours and
/// minutes, or days and hours, as ASCII bytes: under an hour `"{m}m"`,
/// under a day `"{h}h {m}m"`, otherwise `"{d}d {h}h"`.
pub open spec fn spec_format_duration(seconds: nat) -> Seq<u8> {
    let days = seconds / 86400;
    let hours = (seconds % 86400) / 3600;
    let minutes = (seconds % 3600) / 60;
    if days == 0 && hours == 0 {
        spec_dec_bytes(minutes) + seq![109u8]
    } else if days == 0 {
        spec_dec_bytes(hours) + seq![104u8, 32u8] + spec_dec_bytes(minutes) + seq![109u8]
    } else {
        spec_dec_bytes(days) + seq![100u8, 32u8] + spec_dec_bytes(hours) + seq![104u8]
    }
}

/// Renders a nonnegative duration in seconds as a short human-readable
/// string.
pub fn format_duration(seconds: i64) -> (r: String)
    requires
        seconds >= 0,
    ensures
        r@ == ascii_chars(spec_format_duration(seconds as nat)),
{
    let s: u64 = seconds as u64;
    let days: u64 = s / 86400;
    let hours: u64 = (s % 86400) / 3600;
    let minutes: u64 = (s % 3600) / 60;
    let mut out: Vec<u8> = Vec::new();
    if days == 0 && hours == 0 {
        push_dec_u64(&mut out, minutes);
        out.push(109);
    } else if days == 0 {
        push_dec_u64(&mut out, hours);
        out.push(104);
        out.push(32);
        push_dec_u64(&mut out, minutes);
        out.push(109);
    } else {
        push_dec_u64(&mut out, days);
        out.push(100);
        out.push(32);
        push_dec_u64(&mut out, hours);
        out.push(104);
    }
    proof {
        assert(out@ =~= spec_format_duration(seconds as nat));
    }
    ascii_string(out)
}

/// Relative change from `old_value` to `new_value` in percent, fixed-point
/// on the [`crate::types::SCORE_ONE`] scale: a move from 100 to 101 is
/// 1_000_000 (one percent), truncated toward zero.
pub open spec fn spec_percentage_change(old_value: nat, new_value: nat) -> int
    recommends
        old_value > 0,
{
    if new_value >= old_value {
        ((new_value - old_value) * 100_000_000) / (old_value as int)
    } else {
        -(((old_value - new_value) * 100_000_000) / (old_value as int))
    }
}

/// Percentage change between two values, fixed-point on the
/// [`crate::types::SCORE_ONE`] scale.
pub fn calculate_percentage_change(old_value: u64, new_value: u64) -> (r: i128)
    requires
        old_value > 0,
    ensures
        r == spec_percentage_change(old_value as nat, new_value as nat),
{
    if new_value >= old_value {
        let diff: u128 = (new_value - old_value) as u128;
        let scaled: u128 = diff * 100_000_000;
        (scaled / (old_value as u128)) as i128
    } else {
        let diff: u128 = (old_value - new_value) as u128;
        let scaled: u128 = diff * 100_000_000;
        -((scaled / (old_value as u128)) as i128)
    }
}

} // verus!
