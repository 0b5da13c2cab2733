//! The random choice of which creature to fetch.
use rand::Rng;
use vstd::prelude::*;

verus! {

/// Smallest creature id the application ever requests.
pub const MIN_CREATURE_ID: u32 = 1;

/// Largest creature id the application ever requests.
pub const MAX_CREATURE_ID: u32 = 100;

/// Relies on `rand::Rng::gen_range` over the inclusive range `lo..=hi`:
/// the sampled value lies within the given bounds, and the call panics only
/// on an empty range, which the precondition rules out. The draw is
/// documented to be uniform over the range, but no contract can pin a
/// random result, so only the bounds are stated.
#[verifier::external_body]
fn draw_in_range(lo: u32, hi: u32) -> (r: u32)
    requires
        lo <= hi,
    ensures
        lo <= r <= hi,
{
    rand::thread_rng().gen_range(lo..=hi)
}

/// Draws the id of the next creature to fetch, always within the id range
/// the application supports.
pub fn draw_creature_id() -> (r: u32)
    ensures
        MIN_CREATURE_ID <= r <= MAX_CREATURE_ID,
{
    draw_in_range(MIN_CREATURE_ID, MAX_CREATURE_ID)
}

} // verus!
