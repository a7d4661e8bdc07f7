use vstd::prelude::*;
use zeroize::Zeroize;

verus! {

/// As many zero bytes as `n`.
pub open spec fn zeros(n: nat) -> Seq<u8> {
    Seq::new(n, |i: int| 0u8)
}

/// `zeroize::Zeroize::zeroize` on the bytes of the buffer, as a slice: every
/// byte is overwritten with zero, by writes that the compiler may not remove,
/// and the buffer keeps its length. The call panics only on a slice longer
/// than `isize::MAX`, which the bytes of a vector never are.
#[verifier::external_body]
pub(crate) fn wipe(buffer: &mut Vec<u8>)
    ensures
        final(buffer)@ == zeros(old(buffer)@.len()),
    opens_invariants none
    no_unwind
{
    buffer.as_mut_slice().zeroize();
}

} // verus!
