//! Byte-level encodings used across the core: lowercase hexadecimal,
//! JSON string escaping, and decimal rendering of integers. Webhook
//! payloads and transaction identifiers are built from these.

use vstd::prelude::*;
use vstd::utf8::encode_utf8;

verus! {

/// The lowercase hexadecimal digit for a value below sixteen, as a byte.
pub open spec fn hex_digit(n: u8) -> u8
    recommends
        n < 16,
{
    if n < 10 {
        (48 + n) as u8
    } else {
        (87 + n) as u8
    }
}

/// The lowercase hexadecimal rendering of a byte string: two digits per
/// byte, high digit first.
pub open spec fn hex_of(s: Seq<u8>) -> Seq<char>
    decreases s.len(),
{
    if s.len() == 0 {
        Seq::empty()
    } else {
        seq![hex_digit(s[0] / 16) as char, hex_digit(s[0] % 16) as char] + hex_of(s.drop_first())
    }
}

/// Relies on hex::encode: two lowercase hexadecimal digits for each byte,
/// in order.
#[verifier::external_body]
pub(crate) fn hex_encode(b: &[u8]) -> (r: String)
    ensures
        r@ == hex_of(b@),
{
    hex::encode(b)
}

/// The lowercase hexadecimal digit for a value below sixteen.
fn hex_digit_exec(n: u8) -> (r: u8)
    requires
        n < 16,
    ensures
        r == hex_digit(n),
{
    if n < 10 {
        48 + n
    } else {
        87 + n
    }
}

/// How one byte of a JSON string is written: quote, backslash and the
/// common control characters get a two-character escape, the remaining
/// control bytes a `\u00..` escape, and every other byte stands as itself.
pub open spec fn esc_byte(b: u8) -> Seq<u8> {
    if b == 34 {
        seq![92u8, 34u8]
    } else if b == 92 {
        seq![92u8, 92u8]
    } else if b == 10 {
        seq![92u8, 110u8]
    } else if b == 13 {
        seq![92u8, 114u8]
    } else if b == 9 {
        seq![92u8, 116u8]
    } else if b < 32 {
        seq![92u8, 117u8, 48u8, 48u8, hex_digit(b / 16), hex_digit(b % 16)]
    } else {
        seq![b]
    }
}

/// The JSON escaping of a byte string, byte by byte.
pub open spec fn esc_bytes(s: Seq<u8>) -> Seq<u8>
    decreases s.len(),
{
    if s.len() == 0 {
        Seq::empty()
    } else {
        esc_bytes(s.drop_last()) + esc_byte(s.last())
    }
}

/// The decimal rendering of a number, most significant digit first.
pub open spec fn dec_bytes(n: nat) -> Seq<u8>
    decreases n,
{
    if n < 10 {
        seq![(48 + n) as u8]
    } else {
        dec_bytes(n / 10) + seq![(48 + n % 10) as u8]
    }
}

/// True exactly when the two byte strings are equal.
pub fn bytes_eq(a: &[u8], b: &[u8]) -> (r: bool)
    ensures
        r == (a@ == b@),
{
    if a.len() != b.len() {
        return false;
    }
    let mut i: usize = 0;
    while i < a.len()
        invariant
            0 <= i <= a@.len(),
            a@.len() == b@.len(),
            forall|j: int| 0 <= j < i ==> a@[j] == b@[j],
        decreases a@.len() - i,
    {
        if a[i] != b[i] {
            return false;
        }
        i = i + 1;
    }
    proof {
        assert(a@ =~= b@);
    }
    true
}

/// Appends the bytes of `s` unchanged.
pub fn append_bytes(v: &mut Vec<u8>, s: &[u8])
    ensures
        final(v)@ == old(v)@ + s@,
{
    let mut i: usize = 0;
    while i < s.len()
        invariant
            0 <= i <= s@.len(),
            v@ == old(v)@ + s@.take(i as int),
        decreases s@.len() - i,
    {
        v.push(s[i]);
        proof {
            assert(old(v)@ + s@.take(i as int + 1) =~= (old(v)@ + s@.take(i as int)).push(
                s@[i as int],
            ));
        }
        i = i + 1;
    }
    proof {
        assert(s@.take(s@.len() as int) =~= s@);
    }
}

/// Appends the UTF-8 bytes of a string unchanged.
pub fn append_str_bytes(v: &mut Vec<u8>, s: &str)
    ensures
        final(v)@ == old(v)@ + encode_utf8(s@),
{
    append_bytes(v, s.as_bytes());
}

/// Appends the JSON escaping of the given bytes.
pub fn append_json_escaped(v: &mut Vec<u8>, s: &[u8])
    ensures
        final(v)@ == old(v)@ + esc_bytes(s@),
{
    let mut i: usize = 0;
    while i < s.len()
        invariant
            0 <= i <= s@.len(),
            v@ == old(v)@ + esc_bytes(s@.take(i as int)),
        decreases s@.len() - i,
    {
        let ghost pre = v@;
        let b = s[i];
        if b == 34 {
            v.push(92);
            v.push(34);
        } else if b == 92 {
            v.push(92);
            v.push(92);
        } else if b == 10 {
            v.push(92);
            v.push(110);
        } else if b == 13 {
            v.push(92);
            v.push(114);
        } else if b == 9 {
            v.push(92);
            v.push(116);
        } else if b < 32 {
            v.push(92);
            v.push(117);
            v.push(48);
            v.push(48);
            v.push(hex_digit_exec(b / 16));
            v.push(hex_digit_exec(b % 16));
        } else {
            v.push(b);
        }
        proof {
            assert(v@ =~= pre + esc_byte(s@[i as int]));
            assert(s@.take(i as int + 1).drop_last() =~= s@.take(i as int));
            assert(s@.take(i as int + 1).last() == s@[i as int]);
            assert(old(v)@ + esc_bytes(s@.take(i as int + 1)) =~= (old(v)@ + esc_bytes(s@.take(
                i as int,
            ))) + esc_byte(s@[i as int]));
        }
        i = i + 1;
    }
    proof {
        assert(s@.take(s@.len() as int) =~= s@);
    }
}

/// Appends the decimal rendering of `n`.
pub fn append_decimal(v: &mut Vec<u8>, n: u64)
    ensures
        final(v)@ == old(v)@ + dec_bytes(n as nat),
    decreases n,
{
    if n < 10 {
        v.push(48 + (n as u8));
        proof {
            assert(old(v)@ + dec_bytes(n as nat) =~= old(v)@.push((48 + n) as u8));
        }
    } else {
        append_decimal(v, n / 10);
        v.push(48 + ((n % 10) as u8));
        proof {
            assert(old(v)@ + dec_bytes(n as nat) =~= (old(v)@ + dec_bytes((n / 10) as nat)).push(
                (48 + n % 10) as u8,
            ));
        }
    }
}

} // verus!
