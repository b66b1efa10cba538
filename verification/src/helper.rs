//! Snapping to the grid.

use vstd::prelude::*;
use crate::fixed::{nearest_multiple, saturate, snap_scalar};
use crate::shape::Vector3;

verus! {

/// The point of the grid nearest to `vector`, coordinate by coordinate.
pub open spec fn snapped(vector: Vector3, grid: int) -> Vector3 {
    Vector3 {
        x: saturate(nearest_multiple(vector.x as int, grid)) as i64,
        y: saturate(nearest_multiple(vector.y as int, grid)) as i64,
        z: saturate(nearest_multiple(vector.z as int, grid)) as i64,
    }
}

/// Snaps each coordinate to the nearest multiple of `grid`; a
/// coordinate half way between two multiples goes away from zero.
pub fn snap(vector: &Vector3, grid: i64) -> (r: Vector3)
    requires
        grid > 0,
    ensures
        r == snapped(*vector, grid as int),
{
    Vector3 {
        x: snap_scalar(vector.x, grid),
        y: snap_scalar(vector.y, grid),
        z: snap_scalar(vector.z, grid),
    }
}

/// The nearest multiple is a multiple of the grid unit, lies within half
/// a unit of the coordinate, and a multiple snaps to itself.
pub proof fn lemma_nearest_multiple(x: int, grid: int)
    requires
        grid > 0,
    ensures
        nearest_multiple(x, grid) % grid == 0,
        -grid <= 2 * (nearest_multiple(x, grid) - x) <= grid,
        x % grid == 0 ==> nearest_multiple(x, grid) == x,
        nearest_multiple(nearest_multiple(x, grid), grid) == nearest_multiple(x, grid),
{
    lemma_steps(x, grid);
    lemma_steps(nearest_multiple(x, grid), grid);
}

/// The arithmetic behind `lemma_nearest_multiple`.
proof fn lemma_steps(x: int, grid: int)
    by (nonlinear_arith)
    requires
        grid > 0,
    ensures
        nearest_multiple(x, grid) % grid == 0,
        -grid <= 2 * (nearest_multiple(x, grid) - x) <= grid,
        x % grid == 0 ==> nearest_multiple(x, grid) == x,
{
    let a = if x >= 0 {
        x
    } else {
        -x
    };
    let q = (2 * a + grid) / (2 * grid);
    assert(q * (2 * grid) <= 2 * a + grid < (q + 1) * (2 * grid));
    assert((q * grid) % grid == 0);
    assert((-(q * grid)) % grid == 0) by {
        assert(-(q * grid) == (-q) * grid);
    }
    if x % grid == 0 {
        let k = a / grid;
        assert(a == k * grid) by {
            assert(a % grid == 0);
        }
        assert(q == k);
    }
}

} // verus!
