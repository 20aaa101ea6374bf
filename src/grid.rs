//! Layout of the square grid of model instances.
//!
//! Instance positions are kept as whole numbers of half grid steps: with a
//! grid of `n` cells per row and a spacing `s`, the cell in column `x` sits
//! at `s * (x - n / 2)`, which is `s / 2` times `2 * x - n`. Scaling by the
//! spacing is left to the renderer.

use vstd::prelude::*;

verus! {

/// Where one instance of the grid stands.
#[derive(Clone, Copy, Debug, PartialEq, Eq, Structural)]
pub struct GridPlacement {
    /// Index along the x axis, from 0.
    pub column: u32,
    /// Index along the z axis, from 0.
    pub row: u32,
    /// The x coordinate in half grid steps.
    pub x_half_steps: i64,
    /// The z coordinate in half grid steps.
    pub z_half_steps: i64,
}

/// Offset of grid index `i` from the grid centre, in half grid steps.
pub open spec fn half_step_offset(i: int, per_row: int) -> int {
    2 * i - per_row
}

/// The placement of the `k`-th instance of a grid with `per_row` cells per
/// row: rows are laid out one after the other, each from column 0 upward.
pub open spec fn placement_at(k: int, per_row: int) -> GridPlacement {
    GridPlacement {
        column: (k % per_row) as u32,
        row: (k / per_row) as u32,
        x_half_steps: half_step_offset(k % per_row, per_row) as i64,
        z_half_steps: half_step_offset(k / per_row, per_row) as i64,
    }
}

impl GridPlacement {
    /// The placement sits at the origin of the scene.
    pub open spec fn at_origin(self) -> bool {
        self.x_half_steps == 0 && self.z_half_steps == 0
    }

    /// Tells whether the instance sits at the scene's origin, which (for a
    /// nonzero spacing) is the one case where it keeps the identity rotation;
    /// every other instance is turned about the direction of its position.
    pub fn is_at_origin(&self) -> (r: bool)
        ensures
            r == self.at_origin(),
    {
        self.x_half_steps == 0 && self.z_half_steps == 0
    }
}

/// The placements of a grid of `per_row` by `per_row` instances.
pub fn instance_grid(per_row: u32) -> (r: Vec<GridPlacement>)
    requires
        per_row as nat * per_row as nat <= usize::MAX,
    ensures
        r@.len() == per_row as nat * per_row as nat,
        forall|k: int| 0 <= k < r@.len() ==> #[trigger] r@[k] == placement_at(k, per_row as int),
{
    let mut out: Vec<GridPlacement> = Vec::new();
    let mut z: u32 = 0;
    while z < per_row
        invariant
            per_row as nat * per_row as nat <= usize::MAX,
            z <= per_row,
            out@.len() == z as nat * per_row as nat,
            forall|k: int|
                0 <= k < out@.len() ==> #[trigger] out@[k] == placement_at(k, per_row as int),
        decreases per_row - z,
    {
        let mut x: u32 = 0;
        while x < per_row
            invariant
                per_row as nat * per_row as nat <= usize::MAX,
                z < per_row,
                x <= per_row,
                out@.len() == z as nat * per_row as nat + x,
                forall|k: int|
                    0 <= k < out@.len() ==> #[trigger] out@[k] == placement_at(k, per_row as int),
            decreases per_row - x,
        {
            let k: Ghost<int> = Ghost(z as nat * per_row as nat + x);
            assert(k@ % per_row as int == x as int && k@ / per_row as int == z as int) by {
                vstd::arithmetic::div_mod::lemma_fundamental_div_mod_converse(
                    k@,
                    per_row as int,
                    z as int,
                    x as int,
                );
            }
            let p = GridPlacement {
                column: x,
                row: z,
                x_half_steps: 2 * (x as i64) - per_row as i64,
                z_half_steps: 2 * (z as i64) - per_row as i64,
            };
            out.push(p);
            x += 1;
        }
        assert(z as nat * per_row as nat + per_row as nat == (z + 1) as nat * per_row as nat)
            by (nonlinear_arith);
        z += 1;
    }
    out
}

/// The first instance of the grid stands at the corner where both
/// coordinates are `-per_row / 2` grid steps; an instance sits at the origin
/// (and so keeps the identity rotation) exactly when the row length is even
/// and the instance is the one in the middle column of the middle row.
pub proof fn lemma_grid_corner_and_centre(per_row: u32, k: int)
    requires
        per_row > 0,
        0 <= k < per_row as nat * per_row as nat,
    ensures
        placement_at(0, per_row as int).x_half_steps == -(per_row as int),
        placement_at(0, per_row as int).z_half_steps == -(per_row as int),
        placement_at(k, per_row as int).at_origin() <==> (per_row % 2 == 0 && k == (per_row
            / 2) as int * per_row as int + (per_row / 2) as int),
{
    let n = per_row as int;
    assert(0int % n == 0 && 0int / n == 0);
    let x = k % n;
    let z = k / n;
    vstd::arithmetic::div_mod::lemma_fundamental_div_mod(k, n);
    assert(0 <= x < n);
    assert(0 <= z < n) by (nonlinear_arith)
        requires
            k == n * z + x,
            0 <= x < n,
            0 <= k < n * n,
            n > 0,
    {
        if z >= n {
            assert(n * z >= n * n);
        }
        if z < 0 {
            assert(n * z <= -n);
        }
    }
    assert(n * z == z * n) by (nonlinear_arith);
    if n % 2 == 0 && k == (n / 2) * n + n / 2 {
        vstd::arithmetic::div_mod::lemma_fundamental_div_mod_converse(k, n, n / 2, n / 2);
    }
}

} // verus!
