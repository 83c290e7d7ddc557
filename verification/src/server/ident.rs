//! Fresh identifiers, made from random bytes.

use crate::text::push_char;
use crate::utils::hex::{encode_into, spec_encode};
use vstd::prelude::*;

verus! {

/// Sixteen random bytes, as `uuid::Uuid::new_v4` draws them. Nothing is
/// claimed of the result: two calls may give the same bytes. Where the
/// system gives no random bytes, `uuid` panics.
#[verifier::external_body]
pub(crate) fn random_bytes() -> (r: [u8; 16]) {
    uuid::Uuid::new_v4().into_bytes()
}

/// The text of a token made from `bytes`: a fixed prefix, then the bytes in
/// hexadecimal, without dashes.
pub open spec fn token_text(bytes: Seq<u8>) -> Seq<char> {
    "crt_"@ + spec_encode(bytes)
}

/// The identifier of a worker made from `bytes`: a fixed prefix, then the
/// bytes in hexadecimal, in five groups set apart by dashes.
pub open spec fn agent_id_text(bytes: Seq<u8>) -> Seq<char> {
    "agent-"@ + spec_encode(bytes.subrange(0, 4)) + seq!['-'] + spec_encode(bytes.subrange(4, 6))
        + seq!['-'] + spec_encode(bytes.subrange(6, 8)) + seq!['-'] + spec_encode(
        bytes.subrange(8, 10),
    ) + seq!['-'] + spec_encode(bytes.subrange(10, 16))
}

/// The text of a token made from `bytes`.
pub fn token_from_bytes(bytes: &[u8; 16]) -> (r: String)
    ensures
        r@ == token_text(bytes@),
{
    let mut s = "crt_".to_owned();
    encode_into(&mut s, bytes.as_slice());
    s
}

fn push_group(s: &mut String, bytes: &[u8; 16], from: usize, to: usize)
    requires
        from <= to <= 16,
    ensures
        final(s)@ == old(s)@ + spec_encode(bytes@.subrange(from as int, to as int)),
{
    let part = vstd::slice::slice_subrange(bytes.as_slice(), from, to);
    encode_into(s, part);
}

/// The identifier of a worker made from `bytes`.
pub fn agent_id_from_bytes(bytes: &[u8; 16]) -> (r: String)
    ensures
        r@ == agent_id_text(bytes@),
{
    let mut s = "agent-".to_owned();
    push_group(&mut s, bytes, 0, 4);
    push_char(&mut s, '-');
    push_group(&mut s, bytes, 4, 6);
    push_char(&mut s, '-');
    push_group(&mut s, bytes, 6, 8);
    push_char(&mut s, '-');
    push_group(&mut s, bytes, 8, 10);
    push_char(&mut s, '-');
    push_group(&mut s, bytes, 10, 16);
    assert(s@ =~= agent_id_text(bytes@));
    s
}

} // verus!
