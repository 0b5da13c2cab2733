//! Core logic of a small creature-guessing application: the fetch lifecycle
//! state machine, the guess comparison, the request URL construction, the
//! extraction of the creature record from a JSON response, and the pure view
//! renderers. Network transport, timers and the rendering engine live outside
//! this crate; the logic here is verified.
use vstd::prelude::*;

pub mod creature;
pub mod digits;
pub mod fetch;
pub mod guess;
pub mod random;
pub mod state;
pub mod view;

verus! {

/// Pause before each fetch is issued, so a loading indicator stays visible.
pub const FETCH_DELAY_MILLIS: u64 = 500;

} // verus!
