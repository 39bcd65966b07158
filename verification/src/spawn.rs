//! Where new boids appear: at random points of the window.

use rand::Rng;
use vstd::prelude::*;

verus! {

/// The number of boids a simulation starts with.
pub const INITIAL_BOID_COUNT: usize = 50;

/// Draws a number from `0..bound` with `rand::Rng::gen_range` on the
/// thread-local generator (`rand::thread_rng`). The contract claims only
/// what rand's documentation states of every outcome: it lies in the range.
/// Which number comes is left open, since it is random; `gen_range` panics
/// on an empty range, which `requires` rules out.
#[verifier::external_body]
fn random_below(bound: u32) -> (r: u32)
    requires
        bound > 0,
    ensures
        r < bound,
{
    rand::thread_rng().gen_range(0..bound)
}

/// A random point of a `width` by `height` window, in whole pixels.
pub fn spawn_point(width: u32, height: u32) -> (p: (u32, u32))
    requires
        width > 0,
        height > 0,
    ensures
        p.0 < width,
        p.1 < height,
{
    let x = random_below(width);
    let y = random_below(height);
    (x, y)
}

/// `count` random points of a `width` by `height` window, one for each boid
/// to create.
pub fn spawn_points(width: u32, height: u32, count: usize) -> (ps: Vec<(u32, u32)>)
    requires
        count > 0 ==> width > 0 && height > 0,
    ensures
        ps.len() == count,
        forall|i: int| 0 <= i < count ==> #[trigger] ps@[i].0 < width && ps@[i].1 < height,
{
    let mut ps: Vec<(u32, u32)> = Vec::new();
    let mut i: usize = 0;
    while i < count
        invariant
            i <= count,
            ps.len() == i,
            count > 0 ==> width > 0 && height > 0,
            forall|j: int| 0 <= j < i ==> #[trigger] ps@[j].0 < width && ps@[j].1 < height,
        decreases count - i,
    {
        ps.push(spawn_point(width, height));
        i += 1;
    }
    ps
}

} // verus!
