use vstd::prelude::*;

use crate::cid::ConnectionId;
use crate::rng::fill_random;
use crate::MAX_CID_SIZE;
use std::time::Duration;

verus! {

/// The identifier was not recognised by the [`ConnectionIdGenerator`] that
/// was asked to validate it.
#[derive(Debug, Copy, Clone)]
pub struct InvalidCid;

/// Capability to produce, measure and validate connection identifiers.
///
/// A connection-management collaborator mints identifiers through
/// [`generate_cid`](Self::generate_cid) and later calls
/// [`validate`](Self::validate) to cheaply discard identifiers this
/// generator cannot have issued.
pub trait ConnectionIdGenerator: Send + Sized {
    /// Length, in bytes, of every identifier this generator emits; constant
    /// for the generator's lifetime.
    spec fn spec_cid_len(&self) -> nat;

    /// Advisory interval after which identifiers issued by this generator
    /// should be retired; `None` means they never expire by policy.
    spec fn spec_cid_lifetime(&self) -> Option<Duration>;

    /// The identifiers this generator recognises as its own. Recognising a
    /// foreign identifier merely costs filtering efficiency; rejecting an
    /// identifier the generator issued would be a correctness bug, so
    /// [`generate_cid`](Self::generate_cid) only returns identifiers this
    /// predicate admits.
    spec fn accepts(&self, cid: Seq<u8>) -> bool;

    /// Produce a fresh identifier of the advertised length, recognised by
    /// this generator's own [`validate`](Self::validate). It must not carry
    /// information an outside observer could use to correlate it with other
    /// identifiers of the same connection.
    fn generate_cid(&mut self) -> (cid: ConnectionId)
        ensures
            final(self).spec_cid_len() == old(self).spec_cid_len(),
            final(self).spec_cid_lifetime() == old(self).spec_cid_lifetime(),
            forall|other: Seq<u8>| #[trigger]
                final(self).accepts(other) <==> old(self).accepts(other),
            cid@.len() == old(self).spec_cid_len(),
            old(self).accepts(cid@),
    ;

    /// The fixed length of identifiers created by this generator.
    fn cid_len(&self) -> (n: usize)
        ensures
            n == self.spec_cid_len(),
    ;

    /// The advisory lifetime of identifiers created by this generator.
    fn cid_lifetime(&self) -> (lifetime: Option<Duration>)
        ensures
            lifetime == self.spec_cid_lifetime(),
    ;

    /// Quickly determine whether `cid` could have been issued by this
    /// generator: success exactly when the identifier is recognised.
    fn validate(&self, cid: &ConnectionId) -> (r: Result<(), InvalidCid>)
        ensures
            r is Ok <==> self.accepts(cid@),
    ;
}

/// Generates purely random connection identifiers of a fixed length.
///
/// Random identifiers can be smaller than those of a keyed generator, but
/// retain nothing to check against, so validation accepts everything.
#[derive(Debug, Clone, Copy)]
pub struct RandomConnectionIdGenerator {
    cid_len: usize,
    lifetime: Option<Duration>,
}

impl RandomConnectionIdGenerator {
    #[verifier::type_invariant]
    spec fn wf(self) -> bool {
        self.cid_len <= MAX_CID_SIZE
    }

    /// Initialize with a fixed identifier length, at most [`MAX_CID_SIZE`]
    /// bytes.
    pub fn new(cid_len: usize) -> (generator: Self)
        requires
            cid_len <= MAX_CID_SIZE,
        ensures
            generator.spec_cid_len() == cid_len,
            generator.spec_cid_lifetime() is None,
    {
        RandomConnectionIdGenerator { cid_len, lifetime: None }
    }

    /// Set the lifetime of identifiers created by this generator.
    pub fn set_lifetime(&mut self, d: Duration) -> (generator: &mut Self)
        ensures
            generator.spec_cid_len() == old(self).spec_cid_len(),
            generator.spec_cid_lifetime() == Some(d),
            *final(self) == *final(generator),
    {
        proof {
            use_type_invariant(&*self);
        }
        self.lifetime = Some(d);
        self
    }
}

impl Default for RandomConnectionIdGenerator {
    /// Eight random bytes, never expiring by policy.
    fn default() -> (generator: Self)
        ensures
            generator.spec_cid_len() == 8,
            generator.spec_cid_lifetime() is None,
    {
        RandomConnectionIdGenerator { cid_len: 8, lifetime: None }
    }
}

impl ConnectionIdGenerator for RandomConnectionIdGenerator {
    closed spec fn spec_cid_len(&self) -> nat {
        self.cid_len as nat
    }

    closed spec fn spec_cid_lifetime(&self) -> Option<Duration> {
        self.lifetime
    }

    /// Nothing is retained to check against, so every identifier is
    /// recognised; smaller identifiers are traded for spoof filtering.
    open spec fn accepts(&self, cid: Seq<u8>) -> bool {
        true
    }

    fn generate_cid(&mut self) -> (cid: ConnectionId)
        ensures
            *final(self) == *old(self),
    {
        proof {
            use_type_invariant(&*self);
        }
        let mut bytes: Vec<u8> = vec![0u8; self.cid_len];
        fill_random(&mut bytes);
        ConnectionId::new(bytes.as_slice())
    }

    fn cid_len(&self) -> (n: usize) {
        self.cid_len
    }

    fn cid_lifetime(&self) -> (lifetime: Option<Duration>) {
        self.lifetime
    }

    /// Always succeeds, for any input whatsoever.
    fn validate(&self, cid: &ConnectionId) -> (r: Result<(), InvalidCid>)
        ensures
            r is Ok,
    {
        Ok(())
    }
}

} // verus!
