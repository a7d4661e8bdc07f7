use base64::Engine;
use vstd::prelude::*;

verus! {

/// The standard base64 encoding of a byte sequence: the standard alphabet,
/// with `=` padding.
pub uninterp spec fn base64_standard(bytes: Seq<u8>) -> Seq<char>;

/// The length of the padded base64 encoding of `n` bytes: four characters
/// for every three bytes or part of three.
pub open spec fn base64_len(n: nat) -> nat {
    4 * ((n + 2) / 3)
}

/// `base64::Engine::encode` on the engine
/// `base64::engine::general_purpose::STANDARD`. The text it returns depends
/// on the bytes alone and is as long as the padded encoding is. The call
/// panics when that length does not fit in `usize`, so such input is kept
/// out.
#[verifier::external_body]
pub(crate) fn encode_base64(bytes: &Vec<u8>) -> (r: String)
    requires
        base64_len(bytes@.len()) <= usize::MAX,
    ensures
        r@ == base64_standard(bytes@),
        r@.len() == base64_len(bytes@.len()),
{
    base64::prelude::BASE64_STANDARD.encode(bytes)
}

} // verus!
