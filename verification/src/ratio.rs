//! Exact fractions used as texture coordinates.

use vstd::prelude::*;

verus! {

/// A non-negative fraction `numerator / denominator`, kept unreduced so that
/// the cell index and the grid size it was made from stay readable.
#[derive(Clone, Copy, Debug, PartialEq, Eq, Structural)]
pub struct Ratio {
    pub numerator: u128,
    pub denominator: u128,
}

impl Ratio {
    /// A fraction is well formed when it has a value: its denominator is not zero.
    pub open spec fn wf(&self) -> bool {
        self.denominator > 0
    }

    /// `self <= other` as fractions, by cross multiplication.
    pub open spec fn le(&self, other: Ratio) -> bool {
        self.numerator * other.denominator <= other.numerator * self.denominator
    }

    /// The fraction is exactly zero.
    pub open spec fn is_zero(&self) -> bool {
        self.wf() && self.numerator == 0
    }

    /// The fraction is exactly one.
    pub open spec fn is_one(&self) -> bool {
        self.wf() && self.numerator == self.denominator
    }
}

/// The fraction that bounds atlas cell `cell` on an axis cut into `count`
/// tiles: its near edge `cell / count`, or its far edge `(cell + 1) / count`.
/// An axis with no tiles is read as one tile spanning the whole texture, so
/// its edges are `0 / 1` and `1 / 1` whatever the cell.
pub open spec fn tile_edge(cell: usize, count: usize, far: bool) -> Ratio {
    if count == 0 {
        Ratio { numerator: if far { 1u128 } else { 0u128 }, denominator: 1u128 }
    } else {
        Ratio {
            numerator: (cell + if far { 1int } else { 0int }) as u128,
            denominator: count as u128,
        }
    }
}

/// Computes one edge of an atlas cell as an exact fraction.
pub fn cell_edge(cell: usize, count: usize, far: bool) -> (edge: Ratio)
    ensures
        edge == tile_edge(cell, count, far),
        edge.wf(),
{
    if count == 0 {
        Ratio { numerator: if far { 1u128 } else { 0u128 }, denominator: 1u128 }
    } else {
        let near: u128 = cell as u128;
        let numerator: u128 = if far { near + 1 } else { near };
        Ratio { numerator, denominator: count as u128 }
    }
}

/// The near edge of a cell never lies beyond its far edge, and a cell that is
/// inside the grid lies inside the unit interval.
pub proof fn lemma_tile_edges_ordered(cell: usize, count: usize)
    ensures
        tile_edge(cell, count, false).wf(),
        tile_edge(cell, count, true).wf(),
        tile_edge(cell, count, false).le(tile_edge(cell, count, true)),
        count == 0 || cell < count ==> tile_edge(cell, count, true).le(
            Ratio { numerator: 1u128, denominator: 1u128 },
        ),
{
    if count != 0 {
        assert(cell * count <= (cell + 1) * count) by (nonlinear_arith);
    }
}

} // verus!
