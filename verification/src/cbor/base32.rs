//! Crockford Base32 encoding used for schema and i18n identifiers.
use vstd::arithmetic::div_mod::{
    lemma_breakdown, lemma_fundamental_div_mod, lemma_fundamental_div_mod_converse,
};
use vstd::arithmetic::power2::{lemma_pow2_adds, lemma_pow2_pos, lemma2_to64, pow2};
use vstd::prelude::*;

use crate::text::push_char;

verus! {

/// Crockford Base32 decode errors.
#[derive(Debug, Clone, Copy, PartialEq, Eq, Structural)]
pub enum Base32Error {
    /// Character not part of the Crockford alphabet.
    InvalidCharacter(char),
    /// Payload ended with leftover bits that are not zero.
    IncompleteByte,
}

/// The 32 symbols of the Crockford alphabet, in digit order.
pub open spec fn crockford_alphabet() -> Seq<char> {
    seq![
        '0', '1', '2', '3', '4', '5', '6', '7', '8', '9', 'A', 'B', 'C', 'D', 'E', 'F',
        'G', 'H', 'J', 'K', 'M', 'N', 'P', 'Q', 'R', 'S', 'T', 'V', 'W', 'X', 'Y', 'Z',
    ]
}

/// Value of a big-endian digit sequence in the given base.
pub open spec fn digits_value(d: Seq<u8>, base: nat) -> nat
    decreases d.len(),
{
    if d.len() == 0 {
        0
    } else {
        digits_value(d.drop_last(), base) * base + d.last() as nat
    }
}

/// The `k` lowest big-endian digits of `n` in the given base.
pub open spec fn to_digits(n: nat, base: nat, k: nat) -> Seq<u8>
    decreases k,
{
    if k == 0 {
        seq![]
    } else {
        to_digits(n / base, base, (k - 1) as nat).push((n % base) as u8)
    }
}

/// Number of zero bits appended so that `n` bytes fill whole 5-bit groups.
pub open spec fn base32_padding(n: nat) -> nat {
    ((5 - (8 * n) % 5) % 5) as nat
}

/// The 5-bit groups of the input bit string (most significant bit first),
/// with the last group padded with zero bits.
pub open spec fn base32_digits(bytes: Seq<u8>) -> Seq<u8> {
    let p = base32_padding(bytes.len());
    to_digits(digits_value(bytes, 256) * pow2(p), 32, (8 * bytes.len() + p) / 5)
}

/// The Crockford symbols of a digit sequence.
pub open spec fn crockford_text(ds: Seq<u8>) -> Seq<char> {
    ds.map_values(|d: u8| crockford_alphabet()[d as int])
}

/// Crockford Base32 text of a byte string (uppercase, no padding characters).
pub open spec fn spec_encode_base32_crockford(bytes: Seq<u8>) -> Seq<char> {
    crockford_text(base32_digits(bytes))
}

/// Position of an (uppercase) symbol in the Crockford alphabet.
pub open spec fn crockford_position(u: char) -> Option<u8> {
    if '0' <= u && u <= '9' {
        Some((u as int - '0' as int) as u8)
    } else if 'A' <= u && u <= 'H' {
        Some((u as int - 'A' as int + 10) as u8)
    } else if u == 'J' || u == 'K' {
        Some((u as int - 'J' as int + 18) as u8)
    } else if u == 'M' || u == 'N' {
        Some((u as int - 'M' as int + 20) as u8)
    } else if 'P' <= u && u <= 'T' {
        Some((u as int - 'P' as int + 22) as u8)
    } else if 'V' <= u && u <= 'Z' {
        Some((u as int - 'V' as int + 27) as u8)
    } else {
        None
    }
}

/// ASCII letters and digits.
pub open spec fn is_ascii_alphanumeric(c: char) -> bool {
    ('0' <= c && c <= '9') || ('a' <= c && c <= 'z') || ('A' <= c && c <= 'Z')
}

/// Upper-cases ASCII lowercase letters and keeps every other character.
pub open spec fn ascii_upper(c: char) -> char {
    if 'a' <= c && c <= 'z' {
        (c as int - 32) as char
    } else {
        c
    }
}

/// Lower-cases ASCII uppercase letters and keeps every other character.
pub open spec fn ascii_lower(c: char) -> char {
    if 'A' <= c && c <= 'Z' {
        (c as int + 32) as char
    } else {
        c
    }
}

/// Digit value of one input character, or the character reported as invalid.
///
/// Lowercase letters are read as uppercase, `I` and `L` as `1`, `O` as `0`.
pub open spec fn crockford_digit(c: char) -> Result<u8, char> {
    if !is_ascii_alphanumeric(c) {
        Err(c)
    } else {
        let u = ascii_upper(c);
        if u == 'I' || u == 'L' {
            Ok(1u8)
        } else if u == 'O' {
            Ok(0u8)
        } else {
            match crockford_position(u) {
                Some(d) => Ok(d),
                None => Err(u),
            }
        }
    }
}

/// Digit values of the input, or the error for its first invalid character.
pub open spec fn crockford_digits(s: Seq<char>) -> Result<Seq<u8>, Base32Error>
    decreases s.len(),
{
    if s.len() == 0 {
        Ok(seq![])
    } else {
        match crockford_digits(s.drop_last()) {
            Err(e) => Err(e),
            Ok(ds) => match crockford_digit(s.last()) {
                Ok(d) => Ok(ds.push(d)),
                Err(c) => Err(Base32Error::InvalidCharacter(c)),
            },
        }
    }
}

/// Decoding of Crockford Base32 text: the bit string of the digits is cut into
/// whole bytes; the trailing bits that do not fill a byte must all be zero.
pub open spec fn spec_decode_base32_crockford(s: Seq<char>) -> Result<Seq<u8>, Base32Error> {
    match crockford_digits(s) {
        Err(e) => Err(e),
        Ok(ds) => {
            let q = (5 * ds.len()) % 8;
            let m = digits_value(ds, 32);
            if m % pow2(q) != 0 {
                Err(Base32Error::IncompleteByte)
            } else {
                Ok(to_digits(m / pow2(q), 256, (5 * ds.len()) / 8))
            }
        }
    }
}

proof fn lemma_pow2_small()
    ensures
        pow2(0) == 1,
        pow2(1) == 2,
        pow2(2) == 4,
        pow2(3) == 8,
        pow2(4) == 16,
        pow2(5) == 32,
        pow2(6) == 64,
        pow2(7) == 128,
        pow2(8) == 256,
        pow2(9) == 512,
        pow2(10) == 1024,
        pow2(11) == 2048,
        pow2(12) == 4096,
{
    lemma2_to64();
}

/// `2^e` for the small exponents the codec needs.
fn small_pow2(e: u32) -> (r: u32)
    requires
        e <= 12,
    ensures
        r == pow2(e as nat),
{
    proof {
        lemma_pow2_small();
    }
    let mut r: u32 = 1;
    let mut i: u32 = 0;
    while i < e
        invariant
            i <= e <= 12,
            r == pow2(i as nat),
        decreases e - i,
    {
        proof {
            lemma_pow2_adds(i as nat, 1);
            lemma_pow2_small();
            vstd::arithmetic::power2::lemma_pow2_strictly_increases(i as nat, 12);
        }
        r = r * 2;
        i = i + 1;
    }
    r
}

/// Splitting off the top digit of a value: if `e * 2^(a+5) + acc == v` with
/// `acc < 2^(a+5)`, then the next digit is `acc / 2^a`.
proof fn lemma_emit_step(e: nat, acc: nat, a: nat, v: nat, width: nat)
    requires
        e * pow2(a + width) + acc == v,
        acc < pow2(a + width),
    ensures
        acc / pow2(a) < pow2(width),
        (e * pow2(width) + acc / pow2(a)) * pow2(a) + acc % pow2(a) == v,
        acc % pow2(a) < pow2(a),
        (e * pow2(width) + acc / pow2(a)) / pow2(width) == e,
        (e * pow2(width) + acc / pow2(a)) % pow2(width) == acc / pow2(a),
{
    let p = pow2(a);
    let w = pow2(width);
    lemma_pow2_pos(a);
    lemma_pow2_pos(width);
    lemma_pow2_adds(width, a);
    lemma_fundamental_div_mod(acc as int, p as int);
    let d = acc / p;
    let r = acc % p;
    assert(acc == p * d + r);
    assert(d < w) by (nonlinear_arith)
        requires
            acc == p * d + r,
            acc < w * p,
            0 <= r,
            p > 0,
    ;
    assert((e * w + d) * p + r == e * (w * p) + acc) by (nonlinear_arith)
        requires
            acc == p * d + r,
    ;
    lemma_fundamental_div_mod_converse((e * w + d) as int, w as int, e as int, d as int);
}

/// Pushing one more digit onto a digit sequence of the value's top part.
proof fn lemma_to_digits_push(e: nat, d: nat, base: nat, k: nat)
    requires
        base > 0,
        d < base,
    ensures
        to_digits(e * base + d, base, k + 1) == to_digits(e, base, k).push(d as u8),
{
    lemma_fundamental_div_mod_converse((e * base + d) as int, base as int, e as int, d as int);
}

/// Encodes bytes to Crockford Base32 (no padding, uppercase).
pub fn encode_base32_crockford(bytes: &[u8]) -> (out: String)
    ensures
        out@ == spec_encode_base32_crockford(bytes@),
{
    let mut acc: u32 = 0;
    let mut available: u32 = 0;
    let mut output = String::new();
    let ghost mut digits: Seq<u8> = seq![];
    let ghost mut emitted: nat = 0;
    let mut i: usize = 0;
    proof {
        lemma_pow2_small();
        assert(bytes@.subrange(0, 0) =~= Seq::<u8>::empty());
    }
    while i < bytes.len()
        invariant
            i <= bytes.len(),
            available < 5,
            acc < pow2(available as nat),
            digits.len() * 5 + available == 8 * i,
            emitted * pow2(available as nat) + acc == digits_value(bytes@.subrange(0, i as int), 256),
            digits == to_digits(emitted, 32, digits.len()),
            output@ == crockford_text(digits),
        decreases bytes.len() - i,
    {
        let byte = bytes[i];
        proof {
            lemma_pow2_small();
            assert(bytes@.subrange(0, i + 1).drop_last() =~= bytes@.subrange(0, i as int));
            lemma_pow2_adds(available as nat, 8);
            assert(emitted * pow2(available as nat + 8) + acc * 256 + byte == digits_value(
                bytes@.subrange(0, i + 1),
                256,
            )) by (nonlinear_arith)
                requires
                    emitted * pow2(available as nat) + acc == digits_value(
                        bytes@.subrange(0, i as int),
                        256,
                    ),
                    pow2(available as nat + 8) == pow2(available as nat) * pow2(8),
                    pow2(8) == 256,
                    digits_value(bytes@.subrange(0, i + 1), 256) == digits_value(
                        bytes@.subrange(0, i as int),
                        256,
                    ) * 256 + byte,
            ;
            assert(acc * 256 + byte < pow2(available as nat + 8)) by (nonlinear_arith)
                requires
                    acc < pow2(available as nat),
                    byte < 256,
                    pow2(available as nat + 8) == pow2(available as nat) * 256,
            ;
        }
        acc = acc * 256 + byte as u32;
        available = available + 8;
        i = i + 1;
        while available >= 5
            invariant
                5 <= available + 5 <= 17,
                i <= bytes.len(),
                acc < pow2(available as nat),
                digits.len() * 5 + available == 8 * i,
                emitted * pow2(available as nat) + acc == digits_value(
                    bytes@.subrange(0, i as int),
                    256,
                ),
                digits == to_digits(emitted, 32, digits.len()),
                output@ == crockford_text(digits),
                decreases available,
        {
            available = available - 5;
            let p = small_pow2(available);
            proof {
                lemma_pow2_small();
                lemma_emit_step(emitted, acc as nat, available as nat, digits_value(
                    bytes@.subrange(0, i as int),
                    256,
                ), 5);
                lemma_to_digits_push(emitted, (acc / p) as nat, 32, digits.len());
            }
            let d = (acc / p) as u8;
            acc = acc % p;
            proof {
                emitted = emitted * 32 + d as nat;
                digits = digits.push(d);
            }
            push_char(&mut output, crockford_symbol(d));
            assert(output@ =~= crockford_text(digits));
        }
    }
    proof {
        assert(bytes@.subrange(0, i as int) =~= bytes@);
        lemma_fundamental_div_mod_converse(
            (8 * bytes.len()) as int,
            5,
            digits.len() as int,
            available as int,
        );
        lemma_pow2_small();
    }
    if available > 0 {
        let shift = small_pow2(5 - available);
        proof {
            lemma_pow2_adds(available as nat, (5 - available) as nat);
            assert(acc * shift < 32) by (nonlinear_arith)
                requires
                    acc < pow2(available as nat),
                    pow2(available as nat) * shift == 32,
            ;
            assert((emitted * pow2(available as nat) + acc) * shift == emitted * 32 + acc
                * shift) by (nonlinear_arith)
                requires
                    pow2(available as nat) * shift == 32,
            ;
            lemma_to_digits_push(emitted, (acc * shift) as nat, 32, digits.len());
            assert(shift == pow2(base32_padding(bytes.len() as nat)));
        }
        let d = (acc * shift) as u8;
        proof {
            emitted = emitted * 32 + d as nat;
            digits = digits.push(d);
        }
        push_char(&mut output, crockford_symbol(d));
        assert(output@ =~= crockford_text(digits));
        assert(digits == base32_digits(bytes@));
    } else {
        assert(base32_padding(bytes.len() as nat) == 0);
        assert(pow2(base32_padding(bytes.len() as nat)) == 1);
        assert(pow2(available as nat) == 1);
        assert(digits_value(bytes@, 256) == emitted) by (nonlinear_arith)
            requires
                emitted * pow2(available as nat) + acc == digits_value(bytes@, 256),
                pow2(available as nat) == 1,
                acc < 1,
        ;
        assert(digits_value(bytes@, 256) * pow2(base32_padding(bytes.len() as nat)) == emitted);
        assert((8 * bytes.len() + base32_padding(bytes.len() as nat)) / 5 == digits.len());
        assert(digits == base32_digits(bytes@));
    }
    output
}

/// The Crockford symbol of a digit.
fn crockford_symbol(d: u8) -> (c: char)
    requires
        d < 32,
    ensures
        c == crockford_alphabet()[d as int],
{
    let code: u8 = if d < 10 {
        48 + d
    } else if d < 18 {
        65 + (d - 10)
    } else if d < 20 {
        74 + (d - 18)
    } else if d < 22 {
        77 + (d - 20)
    } else if d < 27 {
        80 + (d - 22)
    } else {
        86 + (d - 27)
    };
    let c = code as char;
    assert(c == crockford_alphabet()[d as int]) by {
        if d == 0 { } else if d == 1 { } else if d == 2 { } else if d == 3 { }
        else if d == 4 { } else if d == 5 { } else if d == 6 { } else if d == 7 { }
        else if d == 8 { } else if d == 9 { } else if d == 10 { } else if d == 11 { }
        else if d == 12 { } else if d == 13 { } else if d == 14 { } else if d == 15 { }
        else if d == 16 { } else if d == 17 { } else if d == 18 { } else if d == 19 { }
        else if d == 20 { } else if d == 21 { } else if d == 22 { } else if d == 23 { }
        else if d == 24 { } else if d == 25 { } else if d == 26 { } else if d == 27 { }
        else if d == 28 { } else if d == 29 { } else if d == 30 { } else { }
    }
    c
}

/// Digit value of one input character (see [`crockford_digit`]).
fn decode_digit(c: char) -> (r: Result<u8, char>)
    ensures
        r == crockford_digit(c),
{
    let alnum = ('0' <= c && c <= '9') || ('a' <= c && c <= 'z') || ('A' <= c && c <= 'Z');
    if !alnum {
        return Err(c);
    }
    let u = if 'a' <= c && c <= 'z' {
        ((c as u8) - 32) as char
    } else {
        c
    };
    if u == 'I' || u == 'L' {
        Ok(1)
    } else if u == 'O' {
        Ok(0)
    } else if '0' <= u && u <= '9' {
        Ok((u as u8) - 48)
    } else if 'A' <= u && u <= 'H' {
        Ok((u as u8) - 65 + 10)
    } else if u == 'J' || u == 'K' {
        Ok((u as u8) - 74 + 18)
    } else if u == 'M' || u == 'N' {
        Ok((u as u8) - 77 + 20)
    } else if 'P' <= u && u <= 'T' {
        Ok((u as u8) - 80 + 22)
    } else if 'V' <= u && u <= 'Z' {
        Ok((u as u8) - 86 + 27)
    } else {
        Err(u)
    }
}

/// Once a prefix holds an invalid character, so does every extension of it.
proof fn lemma_digits_error_sticks(s: Seq<char>, j: int)
    requires
        0 <= j <= s.len(),
        crockford_digits(s.subrange(0, j)) is Err,
    ensures
        crockford_digits(s) == crockford_digits(s.subrange(0, j)),
    decreases s.len() - j,
{
    if j < s.len() {
        assert(s.subrange(0, j + 1).drop_last() =~= s.subrange(0, j));
        lemma_digits_error_sticks(s, j + 1);
    } else {
        assert(s.subrange(0, j) =~= s);
    }
}

/// Decodes Crockford Base32, accepting lowercase input.
pub fn decode_base32_crockford(value: &str) -> (r: Result<Vec<u8>, Base32Error>)
    ensures
        match r {
            Ok(bytes) => spec_decode_base32_crockford(value@) == Ok::<Seq<u8>, Base32Error>(
                bytes@,
            ),
            Err(e) => spec_decode_base32_crockford(value@) == Err::<Seq<u8>, Base32Error>(e),
        },
{
    let n = value.unicode_len();
    let mut acc: u32 = 0;
    let mut bits: u32 = 0;
    let mut output: Vec<u8> = Vec::new();
    let ghost mut ds: Seq<u8> = seq![];
    let ghost mut decoded: nat = 0;
    let mut i: usize = 0;
    proof {
        lemma_pow2_small();
        assert(value@.subrange(0, 0) =~= Seq::<char>::empty());
    }
    while i < n
        invariant
            n == value@.len(),
            i <= n,
            bits < 8,
            acc < pow2(bits as nat),
            ds.len() == i,
            crockford_digits(value@.subrange(0, i as int)) == Ok::<Seq<u8>, Base32Error>(ds),
            forall|k: int| 0 <= k < ds.len() ==> ds[k] < 32,
            8 * output.len() + bits == 5 * i,
            decoded * pow2(bits as nat) + acc == digits_value(ds, 32),
            output@ == to_digits(decoded, 256, output.len() as nat),
        decreases n - i,
    {
        let ch = value.get_char(i);
        proof {
            assert(value@.subrange(0, i + 1).drop_last() =~= value@.subrange(0, i as int));
            assert(value@.subrange(0, i + 1).last() == ch);
        }
        let v = match decode_digit(ch) {
            Ok(v) => v,
            Err(bad) => {
                proof {
                    lemma_digits_error_sticks(value@, i + 1);
                }
                return Err(Base32Error::InvalidCharacter(bad));
            },
        };
        proof {
            lemma_pow2_small();
            assert(v < 32);
            lemma_pow2_adds(bits as nat, 5);
            assert(ds.push(v).drop_last() =~= ds);
            assert(decoded * pow2(bits as nat + 5) + acc * 32 + v == digits_value(ds.push(v), 32))
                by (nonlinear_arith)
                requires
                    decoded * pow2(bits as nat) + acc == digits_value(ds, 32),
                    pow2(bits as nat + 5) == pow2(bits as nat) * 32,
                    digits_value(ds.push(v), 32) == digits_value(ds, 32) * 32 + v,
            ;
            assert(acc * 32 + v < pow2(bits as nat + 5)) by (nonlinear_arith)
                requires
                    acc < pow2(bits as nat),
                    v < 32,
                    pow2(bits as nat + 5) == pow2(bits as nat) * 32,
            ;
            ds = ds.push(v);
        }
        acc = acc * 32 + v as u32;
        bits = bits + 5;
        if bits >= 8 {
            bits = bits - 8;
            let p = small_pow2(bits);
            proof {
                lemma_emit_step(decoded, acc as nat, bits as nat, digits_value(ds, 32), 8);
                lemma_to_digits_push(decoded, (acc / p) as nat, 256, output.len() as nat);
            }
            let byte = (acc / p) as u8;
            acc = acc % p;
            output.push(byte);
            proof {
                decoded = decoded * 256 + byte as nat;
            }
        }
        i = i + 1;
    }
    proof {
        assert(value@.subrange(0, n as int) =~= value@);
        lemma_fundamental_div_mod_converse((5 * ds.len()) as int, 8, output.len() as int, bits as int);
        lemma_pow2_small();
        lemma_pow2_pos(bits as nat);
        lemma_fundamental_div_mod_converse(
            digits_value(ds, 32) as int,
            pow2(bits as nat) as int,
            decoded as int,
            acc as int,
        );
    }
    if bits != 0 && acc != 0 {
        return Err(Base32Error::IncompleteByte);
    }
    Ok(output)
}

/// Every digit produced by `to_digits` is below the base.
proof fn lemma_to_digits_bounded(n: nat, base: nat, k: nat)
    requires
        base > 0,
        base <= 256,
    ensures
        to_digits(n, base, k).len() == k,
        forall|i: int| 0 <= i < k ==> (#[trigger] to_digits(n, base, k)[i]) < base,
    decreases k,
{
    if k > 0 {
        lemma_to_digits_bounded(n / base, base, (k - 1) as nat);
        assert(n % base < base);
    }
}

/// Encoding `n` bytes gives `ceil(8 * n / 5)` symbols: one per 5-bit group,
/// the last group padded.
pub proof fn law_base32_length(bytes: Seq<u8>)
    ensures
        spec_encode_base32_crockford(bytes).len() == (8 * bytes.len() + base32_padding(
            bytes.len(),
        )) / 5,
{
    let p = base32_padding(bytes.len());
    lemma_to_digits_bounded(digits_value(bytes, 256) * pow2(p), 32, (8 * bytes.len() + p) / 5);
}

/// Reading back `k` digits of `n` in base `2^w` gives `n` modulo `2^(w*k)`.
proof fn lemma_digits_value_of_to_digits(n: nat, w: nat, k: nat)
    requires
        1 <= w <= 8,
    ensures
        digits_value(to_digits(n, pow2(w), k), pow2(w)) == n % pow2(w * k),
    decreases k,
{
    let b = pow2(w);
    lemma_pow2_pos(w);
    if k == 0 {
        assert(w * k == 0) by (nonlinear_arith)
            requires
                k == 0,
        ;
        assert(pow2(0) == 1) by {
            lemma2_to64();
        }
    } else {
        let km = (k - 1) as nat;
        lemma_digits_value_of_to_digits(n / b, w, km);
        let t = to_digits(n, b, k);
        assert(t.drop_last() =~= to_digits(n / b, b, km));
        assert(b <= 256) by {
            lemma_pow2_small();
            if w < 8 {
                vstd::arithmetic::power2::lemma_pow2_strictly_increases(w, 8);
            }
        }
        assert(t.last() as nat == n % b);
        lemma_pow2_pos(w * km);
        assert(w * km + w == w * k) by (nonlinear_arith)
            requires
                km == k - 1,
        ;
        lemma_pow2_adds(w * km, w);
        lemma_breakdown(n as int, b as int, pow2(w * km) as int);
        assert(b * pow2(w * km) == pow2(w * k)) by (nonlinear_arith)
            requires
                pow2(w * km + w) == pow2(w * km) * pow2(w),
                w * km + w == w * k,
                b == pow2(w),
        ;
        assert(digits_value(t, b) == ((n / b) % pow2(w * km)) * b + n % b);
        assert(((n / b) % pow2(w * km)) * b + n % b == b * ((n / b) % pow2(w * km)) + n % b)
            by (nonlinear_arith);
    }
}

/// Writing out the value of a digit sequence gives the sequence back.
proof fn lemma_to_digits_of_digits_value(d: Seq<u8>, base: nat)
    requires
        base > 0,
        forall|i: int| 0 <= i < d.len() ==> d[i] < base,
    ensures
        to_digits(digits_value(d, base), base, d.len()) == d,
    decreases d.len(),
{
    if d.len() > 0 {
        let dl = d.drop_last();
        lemma_to_digits_of_digits_value(dl, base);
        lemma_fundamental_div_mod_converse(
            digits_value(d, base) as int,
            base as int,
            digits_value(dl, base) as int,
            d.last() as int,
        );
        assert(to_digits(digits_value(d, base), base, d.len()) =~= dl.push(d.last()));
        assert(dl.push(d.last()) =~= d);
    }
}

/// The value of `n` bytes is below `2^(8n)`.
proof fn lemma_bytes_value_bound(b: Seq<u8>)
    ensures
        digits_value(b, 256) < pow2(8 * b.len()),
    decreases b.len(),
{
    lemma_pow2_small();
    if b.len() > 0 {
        let bl = b.drop_last();
        lemma_bytes_value_bound(bl);
        lemma_pow2_adds(8 * bl.len(), 8);
        assert(8 * bl.len() + 8 == 8 * b.len());
        let v = digits_value(bl, 256);
        let pw = pow2(8 * bl.len());
        assert(v * 256 + b.last() < pw * 256) by (nonlinear_arith)
            requires
                v < pw,
                b.last() < 256,
        ;
    }
}

/// Every Crockford symbol reads back as its own digit.
proof fn lemma_symbol_reads_back(d: u8)
    requires
        d < 32,
    ensures
        crockford_digit(crockford_alphabet()[d as int]) == Ok::<u8, char>(d),
{
    if d == 0 { } else if d == 1 { } else if d == 2 { } else if d == 3 { }
    else if d == 4 { } else if d == 5 { } else if d == 6 { } else if d == 7 { }
    else if d == 8 { } else if d == 9 { } else if d == 10 { } else if d == 11 { }
    else if d == 12 { } else if d == 13 { } else if d == 14 { } else if d == 15 { }
    else if d == 16 { } else if d == 17 { } else if d == 18 { } else if d == 19 { }
    else if d == 20 { } else if d == 21 { } else if d == 22 { } else if d == 23 { }
    else if d == 24 { } else if d == 25 { } else if d == 26 { } else if d == 27 { }
    else if d == 28 { } else if d == 29 { } else if d == 30 { } else { }
}

proof fn lemma_symbols_read_back(ds: Seq<u8>)
    requires
        forall|i: int| 0 <= i < ds.len() ==> ds[i] < 32,
    ensures
        crockford_digits(crockford_text(ds)) == Ok::<Seq<u8>, Base32Error>(ds),
    decreases ds.len(),
{
    let chars = crockford_text(ds);
    if ds.len() > 0 {
        let dl = ds.drop_last();
        lemma_symbols_read_back(dl);
        assert(chars.drop_last() =~= crockford_text(dl));
        lemma_symbol_reads_back(ds.last());
        assert(chars.last() == crockford_alphabet()[ds.last() as int]);
        assert(dl.push(ds.last()) =~= ds);
        assert(crockford_digits(chars) == Ok::<Seq<u8>, Base32Error>(dl.push(ds.last())));
    } else {
        assert(chars.len() == 0);
        assert(ds =~= Seq::<u8>::empty());
    }
}

/// Decoding the Crockford Base32 encoding of any byte string gives that byte
/// string back.
pub proof fn law_base32_roundtrip(bytes: Seq<u8>)
    ensures
        spec_decode_base32_crockford(spec_encode_base32_crockford(bytes)) == Ok::<
            Seq<u8>,
            Base32Error,
        >(bytes),
{
    let n = bytes.len();
    let p = base32_padding(n);
    let k = (8 * n + p) / 5;
    let v = digits_value(bytes, 256);
    let big = v * pow2(p);
    lemma_pow2_small();
    lemma_pow2_pos(p);
    assert(p < 5);
    assert(5 * k == 8 * n + p);
    let ds = to_digits(big, 32, k);
    lemma_to_digits_bounded(big, 32, k);
    lemma_symbols_read_back(ds);
    // The digits hold the whole padded value.
    lemma_digits_value_of_to_digits(big, 5, k);
    lemma_bytes_value_bound(bytes);
    lemma_pow2_adds(8 * n, p);
    assert(big < pow2(5 * k)) by (nonlinear_arith)
        requires
            v < pow2(8 * n),
            pow2(8 * n + p) == pow2(8 * n) * pow2(p),
            big == v * pow2(p),
            5 * k == 8 * n + p,
            pow2(p) > 0,
    ;
    vstd::arithmetic::div_mod::lemma_small_mod(big, pow2(5 * k));
    assert(digits_value(ds, 32) == big);
    // The padding bits are exactly the leftover bits.
    lemma_fundamental_div_mod_converse((5 * k) as int, 8, n as int, p as int);
    assert((5 * ds.len()) % 8 == p);
    assert((5 * ds.len()) / 8 == n);
    lemma_fundamental_div_mod_converse(big as int, pow2(p) as int, v as int, 0);
    assert(big % pow2(p) == 0);
    assert(big / pow2(p) == v);
    lemma_to_digits_of_digits_value(bytes, 256);
}

/// Lower-cases every ASCII letter of a character sequence.
pub open spec fn ascii_lowercase(s: Seq<char>) -> Seq<char> {
    s.map_values(|c: char| ascii_lower(c))
}

proof fn lemma_digit_ignores_case(c: char)
    ensures
        crockford_digit(ascii_lower(c)) == crockford_digit(c),
{
}

/// Decoding does not depend on the case of ASCII letters: lowering every
/// ASCII letter of the input gives the same result.
pub proof fn law_base32_decode_ignores_ascii_case(s: Seq<char>)
    ensures
        spec_decode_base32_crockford(ascii_lowercase(s)) == spec_decode_base32_crockford(s),
{
    lemma_digits_ignore_case(s);
}

proof fn lemma_digits_ignore_case(s: Seq<char>)
    ensures
        crockford_digits(ascii_lowercase(s)) == crockford_digits(s),
    decreases s.len(),
{
    if s.len() > 0 {
        lemma_digits_ignore_case(s.drop_last());
        assert(ascii_lowercase(s).drop_last() =~= ascii_lowercase(s.drop_last()));
        lemma_digit_ignores_case(s.last());
    }
}


/// Human-readable description of a decode error.
pub open spec fn base32_error_message(e: Base32Error) -> Seq<char> {
    match e {
        Base32Error::InvalidCharacter(c) => "invalid character "@.push(c),
        Base32Error::IncompleteByte => "incomplete trailing bits"@,
    }
}

impl Base32Error {
    /// Human-readable description of the error.
    pub fn to_message(&self) -> (r: String)
        ensures
            r@ == base32_error_message(*self),
    {
        match self {
            Base32Error::InvalidCharacter(c) => {
                let mut out = crate::text::owned("invalid character ");
                push_char(&mut out, *c);
                out
            },
            Base32Error::IncompleteByte => crate::text::owned("incomplete trailing bits"),
        }
    }
}

} // verus!
