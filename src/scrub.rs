//! Turning a seek-bar position into the elapsed time to resume from.

use vstd::prelude::*;

verus! {

/// The command sent to the player on a seek: resume the current track at
/// `elapsed_ms`, with no offset in the playlist.
pub struct PlayCommand {
    pub elapsed_ms: u64,
    pub offset: i64,
}

/// The elapsed time that `position` percent of `duration_ms` stands for,
/// rounded down.
pub open spec fn scrub_target(duration_ms: u64, position: u64) -> int {
    (duration_ms as int * position as int) / 100
}

/// Computes `duration_ms * position / 100` without overflow.
pub fn scrub_elapsed(duration_ms: u64, position: u64) -> (r: u64)
    requires
        position <= 100,
    ensures
        r == scrub_target(duration_ms, position),
        r <= duration_ms,
{
    let d = duration_ms as u128;
    let p = position as u128;
    assert(d * p <= d * 100) by (nonlinear_arith)
        requires
            p <= 100,
    ;
    assert(d * 100 <= u64::MAX as u128 * 100) by (nonlinear_arith)
        requires
            d <= u64::MAX,
    ;
    let product = d * p;
    let q = product / 100;
    assert(q <= d) by (nonlinear_arith)
        requires
            q == product / 100,
            product <= d * 100,
    ;
    q as u64
}

/// The command for a seek to `position` percent of a track of `duration_ms`.
pub fn scrub_command(duration_ms: u64, position: u64) -> (r: PlayCommand)
    requires
        position <= 100,
    ensures
        r.elapsed_ms == scrub_target(duration_ms, position),
        r.offset == 0,
{
    PlayCommand { elapsed_ms: scrub_elapsed(duration_ms, position), offset: 0 }
}

} // verus!
