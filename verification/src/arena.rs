//! The fixed-size grid the game is played on.

use vstd::prelude::*;

verus! {

/// Width of the arena the game starts with, in cells.
pub const ARENA_WIDTH: i16 = 10;

/// Height of the arena the game starts with, in cells.
pub const ARENA_HEIGHT: i16 = 24;

/// The extents of an arena as mathematical integers.
pub struct Bounds {
    pub width: int,
    pub height: int,
}

impl Bounds {
    /// Both extents are at least one cell.
    pub open spec fn positive(self) -> bool {
        self.width > 0 && self.height > 0
    }
}

/// The logical grid, measured in cells. Both extents are positive for as
/// long as the value lives, and nothing changes them after creation.
#[derive(Debug, Clone, Copy)]
pub struct Arena {
    width: i16,
    height: i16,
}

impl View for Arena {
    type V = Bounds;

    closed spec fn view(&self) -> Bounds {
        Bounds { width: self.width as int, height: self.height as int }
    }
}

impl Arena {
    #[verifier::type_invariant]
    spec fn positive_extents(&self) -> bool {
        self.width > 0 && self.height > 0
    }

    /// An arena of `width` by `height` cells, or nothing when either extent
    /// is not positive.
    pub fn new(width: i16, height: i16) -> (made: Option<Arena>)
        ensures
            made is Some <==> width > 0 && height > 0,
            made matches Some(arena) ==> arena@ == (Bounds {
                width: width as int,
                height: height as int,
            }),
    {
        if width > 0 && height > 0 {
            Some(Arena { width, height })
        } else {
            None
        }
    }

    /// The arena the game starts with.
    pub fn standard() -> (arena: Arena)
        ensures
            arena@ == (Bounds { width: ARENA_WIDTH as int, height: ARENA_HEIGHT as int }),
    {
        Arena { width: ARENA_WIDTH, height: ARENA_HEIGHT }
    }

    /// Number of columns.
    pub fn width(&self) -> (w: i16)
        ensures
            w == self@.width,
            w > 0,
    {
        proof {
            use_type_invariant(self);
        }
        self.width
    }

    /// Number of rows.
    pub fn height(&self) -> (h: i16)
        ensures
            h == self@.height,
            h > 0,
    {
        proof {
            use_type_invariant(self);
        }
        self.height
    }
}

} // verus!
