//! Content fingerprints: the 64-bit FNV-1a hash of a byte sequence, written
//! in lowercase hexadecimal without leading zeros.
//!
//! FNV-1a is pinned so that a fingerprint depends on the bytes alone: the same
//! bytes give the same text in every build and on every machine. It is fast
//! and not collision resistant. What it does guarantee is stated below: two
//! sequences that differ in exactly one byte never share a fingerprint.

use vstd::prelude::*;
use vstd::string::StringExecFns;
use vstd::string::StrSliceExecFns;
use crate::error::report;
use crate::error::ErrorKind;
use crate::error::ProcessError;

verus! {

/// The state in which FNV-1a starts (64 bits).
pub const FNV_OFFSET_BASIS: u64 = 0xcbf2_9ce4_8422_2325;

/// The multiplier of FNV-1a (64 bits).
pub const FNV_PRIME: u64 = 0x0000_0100_0000_01b3;

/// The inverse of `FNV_PRIME` modulo 2^64.
const FNV_PRIME_INVERSE: u64 = 0xce96_5057_aff6_957b;

/// One round of FNV-1a: the byte is xor-ed into the state, and the state is
/// multiplied by the prime modulo 2^64.
pub open spec fn fnv_step(state: u64, byte: u8) -> u64 {
    (state ^ (byte as u64)).wrapping_mul(FNV_PRIME)
}

/// The FNV-1a hash of `data`: one round for each byte, first byte first.
pub open spec fn fnv1a(data: Seq<u8>) -> u64
    decreases data.len(),
{
    if data.len() == 0 {
        FNV_OFFSET_BASIS
    } else {
        fnv_step(fnv1a(data.drop_last()), data.last())
    }
}

/// The character of one hexadecimal digit; `'0'` for what is no digit.
pub open spec fn hex_digit(d: nat) -> char {
    if d == 1 {
        '1'
    } else if d == 2 {
        '2'
    } else if d == 3 {
        '3'
    } else if d == 4 {
        '4'
    } else if d == 5 {
        '5'
    } else if d == 6 {
        '6'
    } else if d == 7 {
        '7'
    } else if d == 8 {
        '8'
    } else if d == 9 {
        '9'
    } else if d == 10 {
        'a'
    } else if d == 11 {
        'b'
    } else if d == 12 {
        'c'
    } else if d == 13 {
        'd'
    } else if d == 14 {
        'e'
    } else if d == 15 {
        'f'
    } else {
        '0'
    }
}

/// `n` in lowercase hexadecimal, most significant digit first, without
/// leading zeros; `"0"` for zero.
pub open spec fn hex_digits(n: nat) -> Seq<char>
    decreases n,
{
    if n < 16 {
        seq![hex_digit(n)]
    } else {
        hex_digits(n / 16).push(hex_digit(n % 16))
    }
}

/// The fingerprint of `data` as text.
pub open spec fn fingerprint_text(data: Seq<u8>) -> Seq<char> {
    hex_digits(fnv1a(data) as nat)
}

/// Multiplying by the prime loses nothing: multiplying the product by the
/// prime's inverse gives the factor back.
proof fn lemma_prime_is_invertible(x: u64)
    ensures
        x.wrapping_mul(FNV_PRIME).wrapping_mul(FNV_PRIME_INVERSE) == x,
{
    let m: int = 0x1_0000_0000_0000_0000;
    let p: int = FNV_PRIME as int;
    let q: int = FNV_PRIME_INVERSE as int;
    // p * q == 1 + k * m
    let k: int = 0xce_9650_590f;
    let xp: int = x as int * p;
    vstd::arithmetic::div_mod::lemma_mod_bound(xp, m);
    vstd::arithmetic::div_mod::lemma_mul_mod_noop_left(xp, q, m);
    assert(xp * q == m * (x as int * k) + x as int) by (nonlinear_arith)
        requires
            xp == x as int * p,
            p * q == 1 + k * m,
    ;
    vstd::arithmetic::div_mod::lemma_mod_multiples_vanish(x as int * k, x as int, m);
    vstd::arithmetic::div_mod::lemma_small_mod(x as nat, m as nat);
}

/// A round keeps two different states apart.
pub proof fn lemma_step_separates_states(a: u64, b: u64, byte: u8)
    requires
        a != b,
    ensures
        fnv_step(a, byte) != fnv_step(b, byte),
{
    let x: u64 = byte as u64;
    assert((a ^ x) != (b ^ x)) by (bit_vector)
        requires
            a != b,
    ;
    lemma_prime_is_invertible(a ^ x);
    lemma_prime_is_invertible(b ^ x);
}

/// A round takes one state to different states for different bytes.
pub proof fn lemma_step_separates_bytes(state: u64, a: u8, b: u8)
    requires
        a != b,
    ensures
        fnv_step(state, a) != fnv_step(state, b),
{
    let x: u64 = a as u64;
    let y: u64 = b as u64;
    assert((state ^ x) != (state ^ y)) by (bit_vector)
        requires
            x != y,
    ;
    lemma_prime_is_invertible(state ^ x);
    lemma_prime_is_invertible(state ^ y);
}

/// A fingerprint depends on the bytes alone: the same bytes have the same
/// fingerprint, whenever and wherever it is taken.
pub proof fn lemma_same_bytes_same_fingerprint(a: Seq<u8>, b: Seq<u8>)
    requires
        a =~= b,
    ensures
        fnv1a(a) == fnv1a(b),
        fingerprint_text(a) == fingerprint_text(b),
{
}

/// Changing a single byte changes the hash: two sequences of one length that
/// differ at position `at` and nowhere else have different hashes.
pub proof fn lemma_single_byte_changes_hash(a: Seq<u8>, b: Seq<u8>, at: int)
    requires
        a.len() == b.len(),
        0 <= at < a.len(),
        a[at] != b[at],
        forall|i: int| 0 <= i < a.len() && i != at ==> a[i] == b[i],
    ensures
        fnv1a(a) != fnv1a(b),
    decreases a.len(),
{
    if at == a.len() - 1 {
        assert(a.drop_last() =~= b.drop_last());
        lemma_step_separates_bytes(fnv1a(a.drop_last()), a.last(), b.last());
    } else {
        lemma_single_byte_changes_hash(a.drop_last(), b.drop_last(), at);
        lemma_step_separates_states(fnv1a(a.drop_last()), fnv1a(b.drop_last()), a.last());
    }
}

/// A number has at least one digit, and two or more from sixteen on.
pub proof fn lemma_hex_digits_len(n: nat)
    ensures
        hex_digits(n).len() >= 1,
        n >= 16 ==> hex_digits(n).len() >= 2,
    decreases n,
{
    if n >= 16 {
        lemma_hex_digits_len(n / 16);
    }
}

/// A 64-bit number has at most sixteen digits.
pub proof fn lemma_hex_digits_of_u64(n: u64)
    ensures
        1 <= hex_digits(n as nat).len() <= 16,
{
    reveal_with_fuel(hex_digits, 17);
    assert(n as nat / 16 / 16 / 16 / 16 / 16 / 16 / 16 / 16 / 16 / 16 / 16 / 16 / 16 / 16 / 16
        < 16);
}

/// Every character of the text is one of `0`-`9`, `a`-`f`.
pub proof fn lemma_hex_digits_are_lowercase(n: nat, i: int)
    requires
        0 <= i < hex_digits(n).len(),
    ensures
        exists|d: nat| d < 16 && hex_digits(n)[i] == hex_digit(d),
    decreases n,
{
    if n >= 16 && i < hex_digits(n).len() - 1 {
        lemma_hex_digits_are_lowercase(n / 16, i);
    }
}

/// Different numbers are written differently.
pub proof fn lemma_hex_digits_injective(a: nat, b: nat)
    requires
        hex_digits(a) == hex_digits(b),
    ensures
        a == b,
    decreases a,
{
    lemma_hex_digits_len(a);
    lemma_hex_digits_len(b);
    if a < 16 || b < 16 {
        assert(hex_digits(a)[0] == hex_digit(a));
        assert(hex_digits(b)[0] == hex_digit(b));
    } else {
        assert(hex_digits(a).last() == hex_digit(a % 16));
        assert(hex_digits(b).last() == hex_digit(b % 16));
        assert(hex_digits(a / 16) =~= hex_digits(a).drop_last());
        assert(hex_digits(b / 16) =~= hex_digits(b).drop_last());
        lemma_hex_digits_injective(a / 16, b / 16);
    }
}

/// Changing a single byte changes the fingerprint.
pub proof fn lemma_single_byte_changes_fingerprint(a: Seq<u8>, b: Seq<u8>, at: int)
    requires
        a.len() == b.len(),
        0 <= at < a.len(),
        a[at] != b[at],
        forall|i: int| 0 <= i < a.len() && i != at ==> a[i] == b[i],
    ensures
        fingerprint_text(a) != fingerprint_text(b),
{
    lemma_single_byte_changes_hash(a, b, at);
    if fingerprint_text(a) == fingerprint_text(b) {
        lemma_hex_digits_injective(fnv1a(a) as nat, fnv1a(b) as nat);
    }
}

/// The 64-bit FNV-1a hash of `data`.
pub fn hash_bytes(data: &[u8]) -> (hash: u64)
    ensures
        hash == fnv1a(data@),
{
    let mut state: u64 = FNV_OFFSET_BASIS;
    let mut done: usize = 0;
    while done < data.len()
        invariant
            done <= data.len(),
            state == fnv1a(data@.take(done as int)),
        decreases data.len() - done,
    {
        let byte: u8 = data[done];
        proof {
            let next = data@.take(done + 1);
            assert(next.drop_last() =~= data@.take(done as int));
            assert(next.last() == byte);
        }
        state = (state ^ (byte as u64)).wrapping_mul(FNV_PRIME);
        done = done + 1;
    }
    assert(data@.take(done as int) =~= data@);
    state
}

/// The text of one hexadecimal digit.
fn digit_text(d: u64) -> (text: &'static str)
    requires
        d < 16,
    ensures
        text@ == seq![hex_digit(d as nat)],
{
    let digits = "0123456789abcdef";
    proof {
        reveal_strlit("0123456789abcdef");
        assert(vstd::string::is_ascii(digits)) by {
            assert forall|i: int| 0 <= i < digits@.len() implies (digits@[i] as nat) < 128 by {}
        }
    }
    digits.substring_ascii(d as usize, d as usize + 1)
}

/// `n` in lowercase hexadecimal without leading zeros.
pub fn to_hex(n: u64) -> (text: String)
    ensures
        text@ == hex_digits(n as nat),
    decreases n,
{
    if n < 16 {
        String::from_str(digit_text(n))
    } else {
        let mut text = to_hex(n / 16);
        text.append(digit_text(n % 16));
        text
    }
}

/// The fingerprint of `data`: its FNV-1a hash in lowercase hexadecimal.
pub fn fingerprint(data: &[u8]) -> (text: String)
    ensures
        text@ == fingerprint_text(data@),
{
    to_hex(hash_bytes(data))
}

/// The fingerprint of the file at `path`, given what reading it in full
/// gave: the bytes, or the text of the failure.
///
/// A failed read is a `Read` error that carries the path and the failure's
/// text. Any bytes, image or not, have a fingerprint.
pub fn calculate_image_hash(path: &str, read: Result<Vec<u8>, String>) -> (r: Result<
    String,
    ProcessError,
>)
    ensures
        match read {
            Ok(data) => r matches Ok(text) && text@ == fingerprint_text(data@),
            Err(cause) => r matches Err(e) && e.kind == ErrorKind::Read && e.path@ == path@
                && e.cause@ == cause@,
        },
{
    let data = report(ErrorKind::Read, path, read)?;
    Ok(fingerprint(data.as_slice()))
}

} // verus!
