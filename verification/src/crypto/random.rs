use rand::RngCore;
use vstd::prelude::*;

verus! {

/// `rand::RngCore::fill_bytes` on the thread-local generator that
/// `rand::rng` hands out: every byte of the buffer is overwritten with
/// random data. Nothing is known of the bytes; the buffer keeps its length.
/// The call panics where the operating system gives no entropy, at the
/// first use of the generator on a thread or when it reseeds. No argument
/// decides that, so no precondition can leave it out.
#[verifier::external_body]
pub(crate) fn fill_random(buffer: &mut Vec<u8>)
    ensures
        final(buffer)@.len() == old(buffer)@.len(),
{
    rand::rng().fill_bytes(buffer);
}

/// `count` bytes from the cryptographically secure random source.
pub fn random_bytes(count: usize) -> (r: Vec<u8>)
    ensures
        r@.len() == count,
{
    let mut buffer: Vec<u8> = Vec::new();
    let mut i: usize = 0;
    while i < count
        invariant
            i <= count,
            buffer@.len() == i,
        decreases count - i,
    {
        buffer.push(0u8);
        i += 1;
    }
    fill_random(&mut buffer);
    buffer
}

} // verus!
