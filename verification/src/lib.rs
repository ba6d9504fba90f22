//! Core of a peer-to-peer rendezvous server dashboard: a bounded log store,
//! a single-line command editor with history browsing, the state machine of a
//! five-step network-reachability startup workflow, and the session controller
//! that applies the merged event stream to all of them.
use vstd::prelude::*;

pub mod event;
pub mod input;
pub mod logs;
pub mod session;
pub mod startup;
mod text;

verus! {

/// Application name, used for the per-user data directory.
pub const NAME: &'static str = "p2p-rendezvous-server";

} // verus!
