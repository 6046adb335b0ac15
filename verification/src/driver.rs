//! The frame driver: turns host window events into player calls and frames.
//!
//! The driver owns the one player and the one snapshot of held direction
//! keys. Each event is handled to completion: a render event yields the
//! frame to draw, an update event ticks the player with the keys held at
//! that moment, key events edit the snapshot, a primary mouse press
//! requests an attack, and a cursor move is translated into world space
//! and offered to the player. The window midpoint is recomputed from the
//! window size carried by each event that needs it, so resizes between
//! events are honored.

use vstd::prelude::*;

use crate::geom::ScreenPosition;
use crate::geom::to_world_position;
use crate::player::Direction;
use crate::player::Player;
use crate::player::VELOCITY;
use crate::player::initial_player;
use crate::player::spec_attack;
use crate::player::spec_update;
use crate::render::Frame;
use crate::render::SceneColor;
use crate::render::render_frame;
use crate::render::render_in_range;
use crate::render::spec_frame_rects;

verus! {

/// The movement and attack keys the driver reacts to; any other key is
/// carried as `Other` and ignored.
#[derive(Clone, Copy, PartialEq, Eq, Structural, Debug)]
pub enum Key {
    W,
    A,
    S,
    D,
    Other,
}

/// Mouse buttons: only the primary one does anything.
#[derive(Clone, Copy, PartialEq, Eq, Structural, Debug)]
pub enum MouseButton {
    Left,
    Other,
}

/// A pressed or released button.
#[derive(Clone, Copy, PartialEq, Eq, Structural, Debug)]
pub enum Button {
    Keyboard(Key),
    Mouse(MouseButton),
}

/// One event from the host window, with sizes in whole pixels, elapsed
/// time in milliseconds, and cursor positions in thousandths of a pixel.
#[derive(Clone, Copy, PartialEq, Eq, Structural, Debug)]
pub enum Event {
    Render { width: u32, height: u32 },
    Update { dt_ms: u64 },
    Press { button: Button },
    Release { button: Button },
    CursorMove { width: u32, height: u32, pos: ScreenPosition },
}

/// The screen position of the midpoint of a window of the given pixel
/// size, in thousandths of a pixel — exact even for odd sizes.
pub open spec fn spec_center(width: u32, height: u32) -> ScreenPosition {
    ScreenPosition { x: (500 * width) as i64, y: (500 * height) as i64 }
}

/// Computes the midpoint of a window of the given pixel size.
pub fn center_of(width: u32, height: u32) -> (c: ScreenPosition)
    ensures
        c == spec_center(width, height),
{
    ScreenPosition { x: 500 * (width as i64), y: 500 * (height as i64) }
}

/// The direction snapshot after a key changes state: W, S, A, D hold the
/// up, down, left and right flags; any other key changes nothing.
pub open spec fn spec_key_change(d: Direction, k: Key, held: bool) -> Direction {
    match k {
        Key::W => Direction { up: held, ..d },
        Key::S => Direction { down: held, ..d },
        Key::A => Direction { left: held, ..d },
        Key::D => Direction { right: held, ..d },
        Key::Other => d,
    }
}

/// The frame driver's state: the one player and the held-key snapshot.
pub struct FrameDriver {
    pub player: Player,
    pub dir: Direction,
}

impl FrameDriver {
    /// The driver is sound exactly when its player is.
    pub open spec fn wf(self) -> bool {
        self.player.wf()
    }

    /// A fresh driver: a fresh player and no key held.
    pub fn new() -> (s: FrameDriver)
        ensures
            s.player == initial_player(),
            s.dir == (Direction { up: false, down: false, left: false, right: false }),
            s.wf(),
    {
        FrameDriver {
            player: Player::new(),
            dir: Direction { up: false, down: false, left: false, right: false },
        }
    }

    /// The inputs on which an event can be handled without the coordinate
    /// arithmetic leaving the machine integer range. Every bound here is a
    /// machine limit, not a rule of the game.
    pub open spec fn event_in_range(self, e: Event) -> bool {
        match e {
            Event::Render { width, height } => render_in_range(
                self.player,
                spec_center(width, height),
            ),
            Event::Update { dt_ms } => {
                &&& VELOCITY * dt_ms <= i64::MAX
                &&& i64::MIN <= self.player.position.x - VELOCITY * dt_ms
                &&& self.player.position.x + VELOCITY * dt_ms <= i64::MAX
                &&& i64::MIN <= self.player.position.y - VELOCITY * dt_ms
                &&& self.player.position.y + VELOCITY * dt_ms <= i64::MAX
            },
            Event::CursorMove { width, height, pos } => {
                &&& i64::MIN <= pos.x - spec_center(width, height).x <= i64::MAX
                &&& i64::MIN <= spec_center(width, height).y - pos.y <= i64::MAX
            },
            _ => true,
        }
    }

    /// Handles one host event. A render event leaves the state alone and
    /// returns the frame to draw for the current player state; an update
    /// event ticks the player with the keys held now; key presses and
    /// releases edit the key snapshot; a primary mouse press requests an
    /// attack; a cursor move is translated into world space and offered to
    /// the player, which under axis-locked movement leaves it unchanged.
    pub fn handle_event(&mut self, e: &Event) -> (out: Option<Frame>)
        requires
            old(self).event_in_range(*e),
        ensures
            match *e {
                Event::Render { width, height } => {
                    &&& *final(self) == *old(self)
                    &&& out is Some
                    &&& out->0.background == SceneColor::Green
                    &&& out->0.rects@ == spec_frame_rects(
                        old(self).player,
                        spec_center(width, height),
                    )
                },
                Event::Update { dt_ms } => {
                    &&& final(self).player == spec_update(old(self).player, dt_ms, old(self).dir)
                    &&& final(self).dir == old(self).dir
                    &&& out is None
                },
                Event::Press { button } => {
                    &&& out is None
                    &&& match button {
                        Button::Mouse(MouseButton::Left) => {
                            &&& final(self).player == spec_attack(old(self).player)
                            &&& final(self).dir == old(self).dir
                        },
                        Button::Mouse(MouseButton::Other) => *final(self) == *old(self),
                        Button::Keyboard(k) => {
                            &&& final(self).player == old(self).player
                            &&& final(self).dir == spec_key_change(old(self).dir, k, true)
                        },
                    }
                },
                Event::Release { button } => {
                    &&& out is None
                    &&& match button {
                        Button::Keyboard(k) => {
                            &&& final(self).player == old(self).player
                            &&& final(self).dir == spec_key_change(old(self).dir, k, false)
                        },
                        Button::Mouse(_) => *final(self) == *old(self),
                    }
                },
                Event::CursorMove { .. } => *final(self) == *old(self) && out is None,
            },
            old(self).wf() ==> final(self).wf(),
    {
        match e {
            Event::Render { width, height } => {
                let center = center_of(*width, *height);
                Some(render_frame(&self.player, center))
            },
            Event::Update { dt_ms } => {
                let dir = self.dir;
                self.player.update(*dt_ms, &dir);
                None
            },
            Event::Press { button } => {
                match button {
                    Button::Mouse(MouseButton::Left) => self.player.attack(),
                    Button::Mouse(MouseButton::Other) => (),
                    Button::Keyboard(k) => self.change_key(*k, true),
                }
                None
            },
            Event::Release { button } => {
                match button {
                    Button::Keyboard(k) => self.change_key(*k, false),
                    Button::Mouse(_) => (),
                }
                None
            },
            Event::CursorMove { width, height, pos } => {
                let center = center_of(*width, *height);
                let world = to_world_position(center, *pos);
                self.player.rotate_from_pos(world);
                None
            },
        }
    }

    /// Applies one key press or release to the held-key snapshot.
    fn change_key(&mut self, k: Key, held: bool)
        ensures
            final(self).player == old(self).player,
            final(self).dir == spec_key_change(old(self).dir, k, held),
    {
        match k {
            Key::W => self.dir.up = held,
            Key::S => self.dir.down = held,
            Key::A => self.dir.left = held,
            Key::D => self.dir.right = held,
            Key::Other => (),
        }
    }
}

} // verus!
