//! The trust-and-synchronization core of a shared game leaderboard: the
//! keyed codec that binds each submitted score to one player, the
//! short-lived stateless capability tokens that guard the admin endpoints,
//! the client-side state machine that moves background network results into
//! consumer-visible state once per tick, and the deterministic ranking
//! reduction applied to fetched score batches.
//!
//! Transport, persistence and identity exchange are external collaborators:
//! callers perform the round trips and hand this crate plain values.

use vstd::prelude::*;

pub mod ids;
pub mod integrity;
pub mod ranking;
pub mod sync;
pub mod token;
pub mod admin;

verus! {

/// Uniform, opaque authorization failure. Every way token verification can
/// fail (malformed token, bad signature, failed check, missing fact)
/// collapses to this one value, so a caller probing the boundary cannot
/// learn which stage rejected the credential.
#[derive(Clone, Copy, Debug, PartialEq, Eq, Structural)]
pub struct AuthzError;

/// A MAC key (or id) that does not have the fixed 16-byte width. Signing
/// fails with this error rather than silently truncating or padding.
#[derive(Clone, Copy, Debug, PartialEq, Eq, Structural)]
pub struct InvalidKey;

} // verus!
