//! Issuance and stateless validation of connection identifiers.
//!
//! Peers of a connection-oriented transport exchange short, opaque
//! identifiers so that packets can be routed to the right connection state
//! after a network-path change. A [`generator::ConnectionIdGenerator`] mints
//! such identifiers; the [`generator::RandomConnectionIdGenerator`] draws
//! them from a secure random source, while the
//! [`keyed::KeyedConnectionIdGenerator`] embeds a truncated keyed-hash
//! signature over a random nonce, so that any holder of the key can cheaply
//! reject identifiers that were never issued under it, without a table of
//! issued values.

use vstd::prelude::*;

pub mod cid;
pub mod generator;
pub mod hmac_sha256;
pub mod keyed;
mod rng;

verus! {

/// Maximum length, in bytes, of a connection identifier.
pub const MAX_CID_SIZE: usize = 20;

} // verus!
