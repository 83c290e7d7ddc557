//! Lower-case hexadecimal text for byte strings.

use crate::text::{push_char, to_chars};
use crate::Error;
use vstd::prelude::*;

verus! {

/// The lower-case hexadecimal digit for `n`, for `n < 16`.
pub open spec fn hex_digit(n: nat) -> char {
    if n < 10 {
        (n + '0' as nat) as char
    } else {
        (n - 10 + 'a' as nat) as char
    }
}

/// Whether `c` is a hexadecimal digit, of either case.
pub open spec fn is_hex_digit(c: char) -> bool {
    ('0' <= c <= '9') || ('a' <= c <= 'f') || ('A' <= c <= 'F')
}

/// The number that a hexadecimal digit stands for.
pub open spec fn hex_value(c: char) -> nat {
    if '0' <= c <= '9' {
        (c as int - '0' as int) as nat
    } else if 'a' <= c <= 'f' {
        (c as int - 'a' as int + 10) as nat
    } else {
        (c as int - 'A' as int + 10) as nat
    }
}

/// The hexadecimal text of `data`: two lower-case digits per byte, high
/// nibble first.
pub open spec fn spec_encode(data: Seq<u8>) -> Seq<char> {
    Seq::new(
        2 * data.len(),
        |i: int|
            if i % 2 == 0 {
                hex_digit((data[i / 2] / 16) as nat)
            } else {
                hex_digit((data[i / 2] % 16) as nat)
            },
    )
}

/// What a pair of characters decodes to: two hexadecimal digits, or a `+`
/// followed by one.
pub open spec fn pair_value(a: char, b: char) -> Option<u8> {
    if is_hex_digit(a) && is_hex_digit(b) {
        Some((hex_value(a) * 16 + hex_value(b)) as u8)
    } else if a == '+' && is_hex_digit(b) {
        Some(hex_value(b) as u8)
    } else {
        None
    }
}

/// Whether `s` is hexadecimal text: an even number of characters, each pair
/// of which decodes.
pub open spec fn decodable(s: Seq<char>) -> bool {
    &&& s.len() % 2 == 0
    &&& forall|k: int| 0 <= k < s.len() / 2 ==> (#[trigger] pair_value(s[2 * k], s[2 * k + 1])) is Some
}

/// The bytes that hexadecimal text stands for.
pub open spec fn spec_decode(s: Seq<char>) -> Seq<u8> {
    Seq::new((s.len() / 2) as nat, |k: int| pair_value(s[2 * k], s[2 * k + 1]).unwrap())
}

fn nibble_char(n: u8) -> (c: char)
    requires
        n < 16,
    ensures
        c == hex_digit(n as nat),
{
    if n < 10 {
        (('0' as u8) + n) as char
    } else {
        (('a' as u8) + (n - 10)) as char
    }
}

fn nibble_value(c: char) -> (r: Option<u8>)
    ensures
        match r {
            Some(v) => is_hex_digit(c) && v == hex_value(c) && v < 16,
            None => !is_hex_digit(c),
        },
{
    if c >= '0' && c <= '9' {
        Some(((c as u32) - ('0' as u32)) as u8)
    } else if c >= 'a' && c <= 'f' {
        Some(((c as u32) - ('a' as u32) + 10) as u8)
    } else if c >= 'A' && c <= 'F' {
        Some(((c as u32) - ('A' as u32) + 10) as u8)
    } else {
        None
    }
}

/// Appends the hexadecimal text of `data` to `out`.
pub fn encode_into(out: &mut String, data: &[u8])
    ensures
        final(out)@ == old(out)@ + spec_encode(data@),
{
    let ghost start = out@;
    let mut i: usize = 0;
    while i < data.len()
        invariant
            0 <= i <= data.len(),
            out@ == start + spec_encode(data@).subrange(0, 2 * i),
        decreases data.len() - i,
    {
        let b = data[i];
        push_char(out, nibble_char(b / 16));
        push_char(out, nibble_char(b % 16));
        proof {
            let e = spec_encode(data@);
            assert(e[2 * i] == hex_digit((b / 16) as nat));
            assert(e[2 * i + 1] == hex_digit((b % 16) as nat));
            assert(out@ =~= start + e.subrange(0, 2 * (i + 1)));
        }
        i += 1;
    }
    assert(spec_encode(data@).subrange(0, 2 * data@.len() as int) =~= spec_encode(data@));
}

/// The hexadecimal text of `data`.
pub fn encode(data: &[u8]) -> (r: String)
    ensures
        r@ == spec_encode(data@),
{
    let mut out = String::new();
    encode_into(&mut out, data);
    assert(out@ =~= spec_encode(data@));
    out
}

/// The bytes that `s` stands for; `BadRequest` when `s` is not hexadecimal
/// text.
pub fn decode(s: &str) -> (r: Result<Vec<u8>, Error>)
    ensures
        match r {
            Ok(v) => decodable(s@) && v@ == spec_decode(s@),
            Err(e) => !decodable(s@) && e == Error::BadRequest,
        },
{
    let cs = to_chars(s);
    if cs.len() % 2 != 0 {
        return Err(Error::BadRequest);
    }
    let n: usize = cs.len() / 2;
    let mut out: Vec<u8> = Vec::new();
    let mut k: usize = 0;
    while k < n
        invariant
            cs@ == s@,
            cs.len() == 2 * n,
            0 <= k <= n,
            out@.len() == k,
            forall|j: int| 0 <= j < k ==> (#[trigger] pair_value(s@[2 * j], s@[2 * j + 1])) == Some(out@[j]),
        decreases n - k,
    {
        let a = cs[2 * k];
        let b = cs[2 * k + 1];
        let lo = nibble_value(b);
        let byte: Option<u8> = match lo {
            None => None,
            Some(l) => match nibble_value(a) {
                Some(h) => Some(h * 16 + l),
                None => if a == '+' {
                    Some(l)
                } else {
                    None
                },
            },
        };
        match byte {
            Some(v) => {
                assert(pair_value(s@[2 * k], s@[2 * k + 1]) == Some(v));
                out.push(v);
            },
            None => {
                assert(pair_value(s@[2 * k], s@[2 * k + 1]) is None);
                return Err(Error::BadRequest);
            },
        }
        k += 1;
    }
    assert(out@ =~= spec_decode(s@));
    Ok(out)
}

/// Decoding the text of a byte string gives the byte string back.
pub proof fn lemma_decode_encode(data: Seq<u8>)
    ensures
        decodable(spec_encode(data)),
        spec_decode(spec_encode(data)) == data,
{
    let e = spec_encode(data);
    assert forall|k: int| 0 <= k < e.len() / 2 implies (#[trigger] pair_value(
        e[2 * k],
        e[2 * k + 1],
    )) == Some(data[k]) by {
        let b = data[k];
        assert(e[2 * k] == hex_digit((b / 16) as nat));
        assert(e[2 * k + 1] == hex_digit((b % 16) as nat));
        lemma_hex_digit((b / 16) as nat);
        lemma_hex_digit((b % 16) as nat);
    }
    assert(spec_decode(e) =~= data);
}

/// A hexadecimal digit stands for the number it was made from.
pub proof fn lemma_hex_digit(n: nat)
    requires
        n < 16,
    ensures
        is_hex_digit(hex_digit(n)),
        hex_value(hex_digit(n)) == n,
{
}

} // verus!
