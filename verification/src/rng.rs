//! The core's one source of chance: a uniform draw from the thread-local
//! generator, used to decide whether collecting a treasure pops a message and
//! which message it is. Nothing is assumed of the value beyond its range;
//! every decision made from a draw is a verified function of the drawn value.
use vstd::prelude::*;

verus! {

/// Relies on rand::Rng::gen_range over rand::thread_rng: a draw from the
/// half-open range below `bound`, which is nonempty since `bound > 0`, so the
/// call cannot panic. Nothing but the range is promised of the value.
#[verifier::external_body]
pub(crate) fn draw_below(bound: u32) -> (r: u32)
    requires
        bound > 0,
    ensures
        r < bound,
{
    rand::Rng::gen_range(&mut rand::thread_rng(), 0..bound)
}

} // verus!
