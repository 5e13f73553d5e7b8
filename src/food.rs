use vstd::prelude::*;
use crate::geometry::{interior, Pos, HEIGHT, WIDTH};

verus! {

/// Relies on rand's `Rng::gen_range` on `thread_rng()`: a value drawn from
/// the half-open range `lo..hi`, which panics when that range is empty.
#[verifier::external_body]
fn gen_in_range(lo: usize, hi: usize) -> (r: usize)
    requires
        lo < hi,
    ensures
        lo <= r < hi,
{
    rand::Rng::gen_range(&mut rand::thread_rng(), lo..hi)
}

/// A food position drawn at random from the interior of the board.
pub fn spawn_food() -> (r: Pos)
    ensures
        interior(r),
{
    let x = gen_in_range(1, WIDTH - 1);
    let y = gen_in_range(1, HEIGHT - 1);
    Pos { x, y }
}

} // verus!
