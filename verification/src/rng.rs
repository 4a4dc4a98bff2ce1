use vstd::prelude::*;

use rand::RngCore;

verus! {

/// Relies on `rand::thread_rng` and `rand::RngCore::fill_bytes`: every byte
/// of the buffer is overwritten with output of the thread-local
/// cryptographically secure random number generator. Nothing can be promised
/// of the values themselves, only that the buffer keeps its length.
#[verifier::external_body]
pub(crate) fn fill_random(buf: &mut Vec<u8>)
    ensures
        final(buf)@.len() == old(buf)@.len(),
{
    rand::thread_rng().fill_bytes(buf.as_mut_slice());
}

} // verus!
