//! The two coordinate spaces and the translation between them.
//!
//! Screen space is the window's pixel grid: origin at the top-left corner,
//! +x right, +y down. World space is centered on the window midpoint with
//! +y up. Both are measured in thousandths of a pixel / world unit.

use vstd::prelude::*;

verus! {

/// A screen-space point, in thousandths of a pixel. Origin at the window's
/// top-left corner; +x right, +y down.
#[derive(Clone, Copy, PartialEq, Eq, Structural, Debug)]
pub struct ScreenPosition {
    pub x: i64,
    pub y: i64,
}

/// A world-space point, in thousandths of a world unit. Origin at the world
/// center (drawn at the window midpoint); +x right, +y up.
#[derive(Clone, Copy, PartialEq, Eq, Structural, Debug)]
pub struct WorldPosition {
    pub x: i64,
    pub y: i64,
}

/// An axis-aligned rectangle spanning `x..x+w` and `y..y+h` in whichever
/// space it is used in, in thousandths of a unit.
#[derive(Clone, Copy, PartialEq, Eq, Structural, Debug)]
pub struct Rect {
    pub x: i64,
    pub y: i64,
    pub w: i64,
    pub h: i64,
}

/// The world point a screen point corresponds to, given the screen
/// coordinates of the window midpoint: shift the origin to the midpoint and
/// flip the y axis.
pub open spec fn world_of_screen(center: ScreenPosition, sx: int, sy: int) -> (int, int) {
    (sx - center.x, center.y - sy)
}

/// The screen point a world point is drawn at: the inverse of
/// `world_of_screen`. This is the screen transform applied to a point.
pub open spec fn screen_of_world(center: ScreenPosition, wx: int, wy: int) -> (int, int) {
    (center.x + wx, center.y - wy)
}

/// Translates a screen point into world space. `center` is the screen
/// position of the window midpoint.
pub fn to_world_position(center: ScreenPosition, pos: ScreenPosition) -> (r: WorldPosition)
    requires
        i64::MIN <= pos.x - center.x <= i64::MAX,
        i64::MIN <= center.y - pos.y <= i64::MAX,
    ensures
        r.x == world_of_screen(center, pos.x as int, pos.y as int).0,
        r.y == world_of_screen(center, pos.x as int, pos.y as int).1,
        pos == center ==> r == (WorldPosition { x: 0, y: 0 }),
{
    WorldPosition { x: pos.x - center.x, y: center.y - pos.y }
}

/// The window midpoint maps to the world origin, and the two translations
/// are inverses of each other: a screen point taken into world space and
/// back, or a world point taken onto the screen and back, is unchanged.
pub proof fn lemma_world_screen_round_trip(
    center: ScreenPosition,
    sx: int,
    sy: int,
    wx: int,
    wy: int,
)
    ensures
        world_of_screen(center, center.x as int, center.y as int) == (0int, 0int),
        screen_of_world(
            center,
            world_of_screen(center, sx, sy).0,
            world_of_screen(center, sx, sy).1,
        ) == (sx, sy),
        world_of_screen(
            center,
            screen_of_world(center, wx, wy).0,
            screen_of_world(center, wx, wy).1,
        ) == (wx, wy),
{
}

} // verus!
