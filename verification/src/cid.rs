use vstd::prelude::*;

use crate::MAX_CID_SIZE;
use vstd::slice::slice_to_vec;

verus! {

/// An immutable connection identifier: a byte sequence of length at most
/// [`MAX_CID_SIZE`]. Peers exchange these raw bytes, so equality is
/// byte-wise and a value is never mutated once created.
#[derive(Debug)]
pub struct ConnectionId {
    bytes: Vec<u8>,
}

impl Clone for ConnectionId {
    /// The clone holds the same bytes.
    fn clone(&self) -> (cid: Self)
        ensures
            cid@ == self@,
    {
        proof {
            use_type_invariant(self);
        }
        ConnectionId { bytes: slice_to_vec(self.bytes.as_slice()) }
    }
}

impl View for ConnectionId {
    type V = Seq<u8>;

    closed spec fn view(&self) -> Seq<u8> {
        self.bytes@
    }
}

impl ConnectionId {
    #[verifier::type_invariant]
    spec fn wf(self) -> bool {
        self.bytes@.len() <= MAX_CID_SIZE
    }

    /// Copy the given bytes into a new identifier.
    pub fn new(bytes: &[u8]) -> (cid: Self)
        requires
            bytes@.len() <= MAX_CID_SIZE,
        ensures
            cid@ == bytes@,
    {
        ConnectionId { bytes: slice_to_vec(bytes) }
    }

    /// Length of the identifier, in bytes.
    pub fn len(&self) -> (n: usize)
        ensures
            n == self@.len(),
    {
        self.bytes.len()
    }

    /// The identifier's bytes.
    pub fn as_slice(&self) -> (bytes: &[u8])
        ensures
            bytes@ == self@,
    {
        self.bytes.as_slice()
    }

    /// The identifier's bytes, as an owned vector.
    pub fn to_vec(&self) -> (bytes: Vec<u8>)
        ensures
            bytes@ == self@,
    {
        slice_to_vec(self.bytes.as_slice())
    }
}

impl PartialEq for ConnectionId {
    /// Identifiers are equal exactly when their bytes are.
    fn eq(&self, other: &Self) -> (r: bool) {
        let a = self.bytes.as_slice();
        let b = other.bytes.as_slice();
        if a.len() != b.len() {
            return false;
        }
        let mut i: usize = 0;
        while i < a.len()
            invariant
                i <= a@.len(),
                a@.len() == b@.len(),
                a@ == self@,
                b@ == other@,
                forall|j: int| 0 <= j < i ==> a@[j] == b@[j],
            decreases a@.len() - i,
        {
            if a[i] != b[i] {
                return false;
            }
            i += 1;
        }
        proof {
            assert(self@ =~= other@);
        }
        true
    }
}

impl vstd::std_specs::cmp::PartialEqSpecImpl for ConnectionId {
    open spec fn obeys_eq_spec() -> bool {
        true
    }

    open spec fn eq_spec(&self, other: &Self) -> bool {
        self@ == other@
    }
}

} // verus!
