//! The four directions a character can face, and where each one lives in the
//! sprite grid.

use vstd::prelude::*;

verus! {

/// Frames in one walk cycle: the number of columns of the sprite grid.
pub const MAX_FRAMES_PER_ANIMATION: usize = 4;

/// Rows of the sprite grid.
pub const ANIMATION_COUNT: usize = 5;

/// Direction a character looks at.
#[derive(Clone, Copy, Debug, PartialEq, Eq, Structural)]
pub enum Facing {
    Up,
    Left,
    Down,
    Right,
}

impl Facing {
    /// Zero-based row of the sprite grid that shows this facing. `Left` has
    /// no row of its own: it is drawn from the row of `Right`, flipped.
    pub open spec fn row(self) -> nat {
        match self {
            Facing::Up => 4,
            Facing::Left => 2,
            Facing::Down => 0,
            Facing::Right => 2,
        }
    }

    /// Index of the first frame of this facing's row.
    pub open spec fn row_start(self) -> nat {
        self.row() * (MAX_FRAMES_PER_ANIMATION as nat)
    }

    /// Whether the sprite is drawn mirrored.
    pub open spec fn mirrored(self) -> bool {
        self == Facing::Left
    }

    /// Horizontal scale of the sprite: `-1` when it is drawn mirrored, `1`
    /// otherwise.
    pub fn scale_x(self) -> (scale: i32)
        ensures
            scale == if self.mirrored() { -1int } else { 1int },
    {
        match self {
            Facing::Left => -1,
            _ => 1,
        }
    }
}

/// Zero-based row of the sprite grid that shows `facing`.
pub fn row_zero_based(facing: Facing) -> (row: usize)
    ensures
        row == facing.row(),
        row < ANIMATION_COUNT,
{
    match facing {
        Facing::Up => 4,
        Facing::Left => 2,
        Facing::Down => 0,
        Facing::Right => 2,
    }
}

/// Index of the first frame of the row that shows `facing`.
pub fn row_start_index(facing: Facing) -> (start: usize)
    ensures
        start == facing.row_start(),
        start + MAX_FRAMES_PER_ANIMATION <= ANIMATION_COUNT * MAX_FRAMES_PER_ANIMATION,
{
    row_zero_based(facing) * MAX_FRAMES_PER_ANIMATION
}

/// Two facings share a row exactly when they are the same facing or both
/// horizontal: `Left` and `Right` are told apart by the flip alone.
pub proof fn lemma_rows_tell_facings_apart(a: Facing, b: Facing)
    ensures
        a.row() == b.row() <==> (a == b || (a.row() == 2 && b.row() == 2)),
        a.row() == 2 <==> (a == Facing::Left || a == Facing::Right),
        a.row() == b.row() && a.mirrored() == b.mirrored() ==> a == b,
{
}

/// The facing of a direction vector, by its dominant axis: the horizontal
/// axis wins only where it is strictly longer, so a tie goes to the vertical
/// one. A vector that points neither up nor sideways faces `Down`.
pub open spec fn dominant(dx: int, dy: int) -> Facing {
    let ax = if dx < 0 { -dx } else { dx };
    let ay = if dy < 0 { -dy } else { dy };
    if ax > ay {
        if dx > 0 { Facing::Right } else { Facing::Left }
    } else {
        if dy > 0 { Facing::Up } else { Facing::Down }
    }
}

/// Facing of the direction vector `(dx, dy)`, `dy` growing upwards.
pub fn dominant_facing(dx: i32, dy: i32) -> (facing: Facing)
    ensures
        facing == dominant(dx as int, dy as int),
{
    let wide_x: i64 = dx as i64;
    let wide_y: i64 = dy as i64;
    let ax: i64 = if wide_x < 0 { -wide_x } else { wide_x };
    let ay: i64 = if wide_y < 0 { -wide_y } else { wide_y };
    if ax > ay {
        if dx > 0 { Facing::Right } else { Facing::Left }
    } else {
        if dy > 0 { Facing::Up } else { Facing::Down }
    }
}

} // verus!
