//! Presentation: where a grid cell lies in the window.
//!
//! The window's extent is known only to the host that draws, and only as a
//! fractional number. What the grid contributes is exact, so it is given
//! here as a ratio by which the host multiplies the extent.

use vstd::prelude::*;
use crate::arena::Arena;
use crate::piece::Position;

verus! {

/// A signed share of a window extent: `numerator / denominator`.
#[derive(Debug, Clone, Copy, PartialEq, Eq, Structural)]
pub struct Ratio {
    pub numerator: i32,
    pub denominator: i32,
}

impl View for Ratio {
    type V = (int, int);

    /// Numerator and denominator as mathematical integers.
    open spec fn view(&self) -> (int, int) {
        (self.numerator as int, self.denominator as int)
    }
}

/// Where the centre of cell `pos` lies along an axis of `cells` cells, as a
/// share of the window extent measured from the window's centre.
///
/// With `tile` for the extent of one cell, the centre is at
/// `pos * tile - extent / 2 + tile / 2`, which is the share
/// `(2 * pos - cells + 1) / (2 * cells)` of the extent.
pub open spec fn center_share(pos: int, cells: int) -> (int, int) {
    (2 * pos - cells + 1, 2 * cells)
}

/// The centre of cell `pos` along an axis of `cells` cells.
pub fn cell_center(pos: i16, cells: i16) -> (share: Ratio)
    requires
        cells > 0,
    ensures
        share@ == center_share(pos as int, cells as int),
{
    Ratio {
        numerator: 2 * (pos as i32) - (cells as i32) + 1,
        denominator: 2 * (cells as i32),
    }
}

/// Where the centre of the cell at `position` lies in a window that shows
/// the whole arena: the share of the window's width, then of its height.
/// The arena is centred in the window; there is no depth.
pub fn position_translation(position: &Position, arena: &Arena) -> (shares: (Ratio, Ratio))
    ensures
        shares.0@ == center_share(position@.x, arena@.width),
        shares.1@ == center_share(position@.y, arena@.height),
{
    (cell_center(position.x, arena.width()), cell_center(position.y, arena.height()))
}

/// The share agrees with the centring formula wherever that formula stays
/// in whole pixels: for a window extent that divides into `cells` tiles of
/// an even number of pixels, the share of the extent is
/// `pos * tile - extent / 2 + tile / 2`.
pub proof fn lemma_center_share_formula(pos: int, cells: int, extent: int)
    requires
        cells > 0,
        extent % (2 * cells) == 0,
    ensures
        ({
            let tile = extent / cells;
            let share = center_share(pos, cells);
            extent * share.0 / share.1 == pos * tile - extent / 2 + tile / 2
        }),
{
    let half = extent / (2 * cells);
    assert(extent == half * (2 * cells)) by {
        vstd::arithmetic::div_mod::lemma_fundamental_div_mod(extent, 2 * cells);
    }
    assert(extent / cells == 2 * half && extent / 2 == half * cells && extent * (2 * pos
        - cells + 1) / (2 * cells) == half * (2 * pos - cells + 1)) by (nonlinear_arith)
        requires
            cells > 0,
            extent == half * (2 * cells),
    ;
    assert(pos * (2 * half) == half * (2 * pos)) by (nonlinear_arith);
    assert(half * (2 * pos - cells + 1) == half * (2 * pos) - half * cells + half)
        by (nonlinear_arith);
}

/// Neighbouring cells are one tile apart: their shares have the same
/// denominator, and the numerators differ by the two halves of a tile.
pub proof fn lemma_center_share_spacing(pos: int, cells: int)
    ensures
        center_share(pos + 1, cells).1 == center_share(pos, cells).1,
        center_share(pos + 1, cells).0 == center_share(pos, cells).0 + 2,
{
}

} // verus!
