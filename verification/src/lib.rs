//! Core logic of a local-inference P2P node: readiness detection for the
//! supervised inference server, the supervisor's event loop decisions, a
//! single-fire shutdown signal, swarm listener configuration, and the
//! per-stream request/response bridge.
//!
//! Everything here is plain decision logic on byte sequences and small state
//! machines; the surrounding process, network and GUI plumbing lives outside
//! the verified library and only feeds events in and carries actions out.

pub mod bridge;
pub mod readiness;
pub mod shutdown;
pub mod supervisor;
pub mod swarm;
pub mod utf8;

use vstd::prelude::*;

verus! {

} // verus!
