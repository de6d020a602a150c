//! The sampling policy: a frame is taken when its ordinal is a multiple of the
//! configured stride. Ordinals start at 1 and grow by one per decoded frame.

use vstd::prelude::*;

verus! {

/// Whether the frame with ordinal `counter` is taken at stride `interval`.
/// A stride of zero takes nothing.
pub open spec fn selected(counter: nat, interval: nat) -> bool {
    interval >= 1 && counter % interval == 0
}

/// The ordinals taken out of the first `frames` decoded frames.
pub open spec fn processed_ordinals(interval: nat, frames: nat) -> Set<nat> {
    Set::new(|c: nat| 1 <= c <= frames && selected(c, interval))
}

/// The positive multiples of `interval` that do not exceed `frames`.
pub open spec fn stride_multiples(interval: nat, frames: nat) -> Set<nat> {
    Set::new(|c: nat| exists|k: nat| c == #[trigger] (k * interval) && 1 <= c <= frames)
}

/// The sampling gate.
pub fn is_selected(counter: u128, interval: u32) -> (taken: bool)
    ensures
        taken == selected(counter as nat, interval as nat),
{
    interval != 0 && counter % (interval as u128) == 0
}

/// Exact cadence: for a stride of at least one, the ordinals taken out of
/// `frames` decoded frames are exactly the positive multiples of the stride up
/// to `frames`.
pub proof fn lemma_exact_cadence(interval: nat, frames: nat)
    requires
        interval >= 1,
    ensures
        processed_ordinals(interval, frames) == stride_multiples(interval, frames),
{
    assert forall|c: nat| processed_ordinals(interval, frames).contains(c) implies stride_multiples(
        interval,
        frames,
    ).contains(c) by {
        let k: nat = c / interval;
        assert(c == interval * k + c % interval) by (nonlinear_arith)
            requires
                interval >= 1,
                k == c / interval,
        ;
        assert(c == k * interval) by (nonlinear_arith)
            requires
                c == interval * k + c % interval,
                c % interval == 0,
        ;
    }
    assert forall|c: nat| stride_multiples(interval, frames).contains(c) implies processed_ordinals(
        interval,
        frames,
    ).contains(c) by {
        let k: nat = choose|k: nat| c == #[trigger] (k * interval) && 1 <= c <= frames;
        assert((k * interval) % interval == 0) by (nonlinear_arith)
            requires
                interval >= 1,
        ;
    }
    assert(processed_ordinals(interval, frames) =~= stride_multiples(interval, frames));
}

} // verus!
