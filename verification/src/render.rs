//! What one frame looks like: the background and the rectangles to draw,
//! already taken into screen space.
//!
//! The player's rectangles are given in the player's local frame (y up,
//! centered on the player), rotated by the facing, translated by the
//! position, and then taken through the screen transform — translate to the
//! window midpoint and flip y — exactly as the coordinate model prescribes.
//! A facing is always one of the four axis directions, so every drawn
//! rectangle stays axis-aligned and the whole frame is exact integer
//! geometry.

use vstd::prelude::*;

use crate::geom::Rect;
use crate::geom::ScreenPosition;
use crate::player::Facing;
use crate::player::Player;

verus! {

/// The palette of the scene.
#[derive(Clone, Copy, PartialEq, Eq, Structural, Debug)]
pub enum SceneColor {
    Green,
    Red,
    Blue,
    White,
    Brown,
}

impl SceneColor {
    /// The color's red, green and blue components, in percent.
    pub open spec fn spec_rgb_percent(self) -> (u8, u8, u8) {
        match self {
            SceneColor::Green => (0u8, 60u8, 0u8),
            SceneColor::Red => (80u8, 0u8, 0u8),
            SceneColor::Blue => (0u8, 0u8, 80u8),
            SceneColor::White => (100u8, 100u8, 100u8),
            SceneColor::Brown => (70u8, 30u8, 0u8),
        }
    }

    /// The color's red, green and blue components, in percent.
    pub fn rgb_percent(self) -> (c: (u8, u8, u8))
        ensures
            c == self.spec_rgb_percent(),
    {
        match self {
            SceneColor::Green => (0, 60, 0),
            SceneColor::Red => (80, 0, 0),
            SceneColor::Blue => (0, 0, 80),
            SceneColor::White => (100, 100, 100),
            SceneColor::Brown => (70, 30, 0),
        }
    }
}

/// One rectangle of a frame: a color and a screen-space rectangle, in
/// thousandths of a pixel.
#[derive(Clone, Copy, PartialEq, Eq, Structural, Debug)]
pub struct DrawRect {
    pub color: SceneColor,
    pub rect: Rect,
}

/// One frame: clear to `background`, then draw `rects` in order.
pub struct Frame {
    pub background: SceneColor,
    pub rects: Vec<DrawRect>,
}

/// The player's body, in the player's local frame.
pub open spec fn body_local() -> Rect {
    Rect { x: -25000i64, y: -25000i64, w: 40000i64, h: 50000i64 }
}

/// The front indicator marking which way the player faces, local frame.
pub open spec fn front_local() -> Rect {
    Rect { x: 15000i64, y: -25000i64, w: 10000i64, h: 50000i64 }
}

/// The sword, drawn only while a swing is in progress, local frame.
pub open spec fn sword_local() -> Rect {
    Rect { x: 5000i64, y: -5000i64, w: 60000i64, h: 10000i64 }
}

/// The decorative pillar. It is drawn under the screen transform alone,
/// without the player's translation, so it never moves with the player.
pub open spec fn pillar_world() -> Rect {
    Rect { x: 100000i64, y: 100000i64, w: 50000i64, h: 50000i64 }
}

/// The axis-aligned extent `(x, y, w, h)` of a local rectangle after
/// rotating the local frame counterclockwise by the facing angle.
pub open spec fn rotated_extent(f: Facing, r: Rect) -> (int, int, int, int) {
    match f {
        Facing::Right => (r.x as int, r.y as int, r.w as int, r.h as int),
        Facing::Up => (-(r.y + r.h), r.x as int, r.h as int, r.w as int),
        Facing::Left => (-(r.x + r.w), -(r.y + r.h), r.w as int, r.h as int),
        Facing::Down => (r.y as int, -(r.x + r.w), r.h as int, r.w as int),
    }
}

/// A y-up world rectangle `(x, y, w, h)` taken through the screen
/// transform: translated to the window midpoint `center` with the y axis
/// flipped, so its top edge lands at `center.y - y - h`.
pub open spec fn screen_rect(center: ScreenPosition, x: int, y: int, w: int, h: int) -> Rect {
    Rect { x: (center.x + x) as i64, y: (center.y - y - h) as i64, w: w as i64, h: h as i64 }
}

/// The render path uses the coordinate model's screen transform: a drawn
/// rectangle's top-left corner is the screen image of its world top-left
/// corner, which in the y-up world frame is `(x, y + h)`. The bounds only
/// keep the corner inside the machine integer range.
pub proof fn lemma_screen_rect_agrees_with_world(
    center: ScreenPosition,
    x: int,
    y: int,
    w: int,
    h: int,
)
    requires
        -MAX_COORD <= center.x <= MAX_COORD,
        -MAX_COORD <= center.y <= MAX_COORD,
        -2 * MAX_COORD <= x <= 2 * MAX_COORD,
        -2 * MAX_COORD <= y + h <= 2 * MAX_COORD,
    ensures
        screen_rect(center, x, y, w, h).x == crate::geom::screen_of_world(center, x, y + h).0,
        screen_rect(center, x, y, w, h).y == crate::geom::screen_of_world(center, x, y + h).1,
{
}

/// One of the player's rectangles as drawn: rotated by the facing, carried
/// to the player's position, and taken through the screen transform.
pub open spec fn spec_player_draw(
    p: Player,
    center: ScreenPosition,
    local: Rect,
    color: SceneColor,
) -> DrawRect {
    let e = rotated_extent(p.rotation, local);
    DrawRect {
        color,
        rect: screen_rect(center, p.position.x + e.0, p.position.y + e.1, e.2, e.3),
    }
}

/// The pillar as drawn: through the screen transform, nothing else.
pub open spec fn spec_pillar_draw(center: ScreenPosition) -> DrawRect {
    let r = pillar_world();
    DrawRect {
        color: SceneColor::Brown,
        rect: screen_rect(center, r.x as int, r.y as int, r.w as int, r.h as int),
    }
}

/// Everything one frame draws, in order: the pillar, the player's body and
/// front indicator, and — exactly while a swing is in progress — the sword.
pub open spec fn spec_frame_rects(p: Player, center: ScreenPosition) -> Seq<DrawRect> {
    let fixed = seq![
        spec_pillar_draw(center),
        spec_player_draw(p, center, body_local(), SceneColor::Blue),
        spec_player_draw(p, center, front_local(), SceneColor::Red),
    ];
    if p.attacking {
        fixed.push(spec_player_draw(p, center, sword_local(), SceneColor::White))
    } else {
        fixed
    }
}

/// The magnitude up to which positions and window midpoints are accepted,
/// in thousandths of a unit. The bound exists only so that composing the
/// transforms stays inside the machine integer range; at walking speed it
/// is out of reach by many orders of magnitude.
pub const MAX_COORD: i64 = 0x0100_0000_0000_0000;

/// The inputs on which a frame can be computed without the coordinate
/// arithmetic leaving the machine integer range.
pub open spec fn render_in_range(p: Player, center: ScreenPosition) -> bool {
    &&& -MAX_COORD <= center.x <= MAX_COORD
    &&& -MAX_COORD <= center.y <= MAX_COORD
    &&& -MAX_COORD <= p.position.x <= MAX_COORD
    &&& -MAX_COORD <= p.position.y <= MAX_COORD
}

/// Rotates a local rectangle by the facing and returns its axis-aligned
/// extent.
fn rotated_local(f: Facing, r: Rect) -> (out: Rect)
    requires
        -1000000 <= r.x <= 1000000,
        -1000000 <= r.y <= 1000000,
        -1000000 <= r.w <= 1000000,
        -1000000 <= r.h <= 1000000,
    ensures
        out.x == rotated_extent(f, r).0,
        out.y == rotated_extent(f, r).1,
        out.w == rotated_extent(f, r).2,
        out.h == rotated_extent(f, r).3,
{
    match f {
        Facing::Right => r,
        Facing::Up => Rect { x: -(r.y + r.h), y: r.x, w: r.h, h: r.w },
        Facing::Left => Rect { x: -(r.x + r.w), y: -(r.y + r.h), w: r.w, h: r.h },
        Facing::Down => Rect { x: r.y, y: -(r.x + r.w), w: r.h, h: r.w },
    }
}

/// Computes one of the player's rectangles as drawn on screen.
fn player_draw(p: &Player, center: ScreenPosition, local: Rect, color: SceneColor) -> (d: DrawRect)
    requires
        render_in_range(*p, center),
        -1000000 <= local.x <= 1000000,
        -1000000 <= local.y <= 1000000,
        -1000000 <= local.w <= 1000000,
        -1000000 <= local.h <= 1000000,
    ensures
        d == spec_player_draw(*p, center, local, color),
{
    let e = rotated_local(p.rotation, local);
    let wx: i64 = p.position.x + e.x;
    let wy: i64 = p.position.y + e.y;
    DrawRect {
        color,
        rect: Rect { x: center.x + wx, y: center.y - wy - e.h, w: e.w, h: e.h },
    }
}

/// Computes one frame from the player's state and the screen position of
/// the window midpoint: clear to green, then the pillar, the blue body,
/// the red front indicator, and the white sword exactly while a swing is
/// in progress.
pub fn render_frame(p: &Player, center: ScreenPosition) -> (f: Frame)
    requires
        render_in_range(*p, center),
    ensures
        f.background == SceneColor::Green,
        f.rects@ == spec_frame_rects(*p, center),
        f.rects@.len() == (if p.attacking {
            4int
        } else {
            3int
        }),
{
    let mut rects: Vec<DrawRect> = Vec::new();
    let pr = pillar_world_exec();
    rects.push(DrawRect {
        color: SceneColor::Brown,
        rect: Rect {
            x: center.x + pr.x,
            y: center.y - pr.y - pr.h,
            w: pr.w,
            h: pr.h,
        },
    });
    rects.push(player_draw(p, center, body_local_exec(), SceneColor::Blue));
    rects.push(player_draw(p, center, front_local_exec(), SceneColor::Red));
    if p.attacking {
        rects.push(player_draw(p, center, sword_local_exec(), SceneColor::White));
    }
    proof {
        assert(rects@ =~= spec_frame_rects(*p, center));
    }
    Frame { background: SceneColor::Green, rects }
}

/// The player's body rectangle, local frame.
fn body_local_exec() -> (r: Rect)
    ensures
        r == body_local(),
{
    Rect { x: -25000, y: -25000, w: 40000, h: 50000 }
}

/// The front indicator rectangle, local frame.
fn front_local_exec() -> (r: Rect)
    ensures
        r == front_local(),
{
    Rect { x: 15000, y: -25000, w: 10000, h: 50000 }
}

/// The sword rectangle, local frame.
fn sword_local_exec() -> (r: Rect)
    ensures
        r == sword_local(),
{
    Rect { x: 5000, y: -5000, w: 60000, h: 10000 }
}

/// The pillar's rectangle under the screen transform's world frame.
fn pillar_world_exec() -> (r: Rect)
    ensures
        r == pillar_world(),
{
    Rect { x: 100000, y: 100000, w: 50000, h: 50000 }
}

} // verus!
