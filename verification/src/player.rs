//! The player: position, facing, and the attack sub-state machine.
//!
//! Movement is axis-locked: each held direction key pushes the player along
//! a world axis at a fixed speed and snaps the facing to that axis,
//! whatever the facing was before. An attack request arms a latch; the next
//! update turns the latch into a swing that lasts while a countdown timer
//! is present, and the swing ends on the first update whose elapsed time
//! overshoots the remaining countdown.
//!
//! Times are in whole milliseconds, lengths in thousandths of a world unit,
//! so one world unit per second is exactly one length unit per millisecond.

use vstd::prelude::*;

use crate::geom::WorldPosition;

verus! {

/// Walking speed, in thousandths of a world unit per millisecond. This is
/// 250 world units per second.
pub const VELOCITY: i64 = 250;

/// How long one sword swing lasts, in milliseconds.
pub const ATTACK_MS: u64 = 350;

/// Which direction keys are currently held. Opposing keys may both be true
/// at once; `Player::update` resolves that.
#[derive(Clone, Copy, PartialEq, Eq, Structural, Debug)]
pub struct Direction {
    pub up: bool,
    pub down: bool,
    pub left: bool,
    pub right: bool,
}

/// The player's facing, one of the four world-axis directions. The
/// counterclockwise angle it makes in the y-up world frame is given by
/// `degrees`.
#[derive(Clone, Copy, PartialEq, Eq, Structural, Debug)]
pub enum Facing {
    Right,
    Up,
    Left,
    Down,
}

impl Facing {
    /// The facing as a counterclockwise angle from the +x axis, in degrees.
    pub open spec fn spec_degrees(self) -> int {
        match self {
            Facing::Right => 0,
            Facing::Up => 90,
            Facing::Left => 180,
            Facing::Down => -90,
        }
    }

    /// The facing as a counterclockwise angle from the +x axis, in degrees.
    pub fn degrees(self) -> (d: i64)
        ensures
            d == self.spec_degrees(),
    {
        match self {
            Facing::Right => 0,
            Facing::Up => 90,
            Facing::Left => 180,
            Facing::Down => -90,
        }
    }
}

/// The player entity. `position` is in thousandths of a world unit;
/// `attack_timer` is the remaining swing time in milliseconds, present
/// exactly while a swing is in progress.
#[derive(Clone, Copy, PartialEq, Eq, Structural, Debug)]
pub struct Player {
    pub rotation: Facing,
    pub position: WorldPosition,
    pub attacking: bool,
    pub start_attack: bool,
    pub attack_timer: Option<u64>,
}

impl Player {
    /// The state invariant: the sword is drawn exactly while the countdown
    /// runs, the countdown never exceeds a full swing, and an armed attack
    /// request can only exist while no swing is in progress.
    pub open spec fn wf(self) -> bool {
        &&& (self.attacking <==> self.attack_timer is Some)
        &&& (self.attack_timer is Some ==> self.attack_timer->0 <= ATTACK_MS)
        &&& (self.start_attack ==> self.attack_timer is None)
    }

    /// A freshly created player: at the world origin, facing +x, idle.
    pub fn new() -> (p: Player)
        ensures
            p == initial_player(),
            p.position == (WorldPosition { x: 0, y: 0 }),
            p.rotation == Facing::Right,
            !p.attacking,
            !p.start_attack,
            p.attack_timer is None,
            p.wf(),
    {
        Player {
            rotation: Facing::Right,
            position: WorldPosition { x: 0, y: 0 },
            attacking: false,
            start_attack: false,
            attack_timer: None,
        }
    }

    /// Accepts the cursor's world position for a possible facing change.
    /// Inert under axis-locked movement, the one movement mode this build
    /// has: the input is taken and ignored, and the state is unchanged.
    #[allow(unused_variables)]
    pub fn rotate_from_pos(&mut self, pos: WorldPosition)
        ensures
            *final(self) == *old(self),
    {
    }

    /// Requests an attack: arms the latch if no swing is in progress,
    /// and drops the request otherwise — a swing is not retriggerable.
    pub fn attack(&mut self)
        ensures
            *final(self) == spec_attack(*old(self)),
            old(self).attack_timer is None ==> final(self).start_attack,
            old(self).attack_timer is Some ==> *final(self) == *old(self),
            old(self).wf() ==> final(self).wf(),
    {
        if self.attack_timer == None::<u64> {
            self.start_attack = true;
        }
    }

    /// One tick: starts an armed attack, runs the swing countdown down by
    /// `dt_ms`, then integrates the held direction keys into the position
    /// and facing. The two bounds required of the caller only keep the
    /// position arithmetic inside the machine integer range.
    pub fn update(&mut self, dt_ms: u64, dir: &Direction)
        requires
            VELOCITY * dt_ms <= i64::MAX,
            i64::MIN <= old(self).position.x - VELOCITY * dt_ms,
            old(self).position.x + VELOCITY * dt_ms <= i64::MAX,
            i64::MIN <= old(self).position.y - VELOCITY * dt_ms,
            old(self).position.y + VELOCITY * dt_ms <= i64::MAX,
        ensures
            *final(self) == spec_update(*old(self), dt_ms, *dir),
            !final(self).start_attack,
            old(self).wf() ==> final(self).wf(),
    {
        if self.start_attack {
            self.start_attack = false;
            self.attacking = true;
            self.attack_timer = Some(ATTACK_MS);
        }

        if let Some(t) = self.attack_timer {
            if dt_ms > t {
                self.attacking = false;
                self.start_attack = false;
                self.attack_timer = None;
            } else {
                self.attack_timer = Some(t - dt_ms);
            }
        }

        let step: i64 = VELOCITY * (dt_ms as i64);
        let dx: i64 = (if dir.right {
            step
        } else {
            0
        }) - (if dir.left {
            step
        } else {
            0
        });
        let dy: i64 = (if dir.up {
            step
        } else {
            0
        }) - (if dir.down {
            step
        } else {
            0
        });
        self.position.x = self.position.x + dx;
        self.position.y = self.position.y + dy;

        if dir.up {
            self.rotation = Facing::Up;
        }
        if dir.down {
            self.rotation = Facing::Down;
        }
        if dir.left {
            self.rotation = Facing::Left;
        }
        if dir.right {
            self.rotation = Facing::Right;
        }
    }
}

/// The state `Player::new` returns: at the world origin, facing +x, idle.
pub open spec fn initial_player() -> Player {
    Player {
        rotation: Facing::Right,
        position: WorldPosition { x: 0i64, y: 0i64 },
        attacking: false,
        start_attack: false,
        attack_timer: None,
    }
}

/// What `Player::attack` does: arm the latch if idle, else change nothing.
pub open spec fn spec_attack(p: Player) -> Player {
    if p.attack_timer is None {
        Player { start_attack: true, ..p }
    } else {
        p
    }
}

/// First phase of an update: an armed attack request becomes a fresh swing.
pub open spec fn step_attack_start(p: Player) -> Player {
    if p.start_attack {
        Player { attacking: true, start_attack: false, attack_timer: Some(ATTACK_MS), ..p }
    } else {
        p
    }
}

/// Second phase of an update: the swing countdown loses `dt_ms`, and the
/// swing ends when the elapsed time overshoots the remaining countdown.
pub open spec fn step_attack_tick(p: Player, dt_ms: u64) -> Player {
    match p.attack_timer {
        Some(t) => if dt_ms > t {
            Player { attacking: false, start_attack: false, attack_timer: None, ..p }
        } else {
            Player { attack_timer: Some((t - dt_ms) as u64), ..p }
        },
        None => p,
    }
}

/// Net movement along the x axis in one update: opposing keys cancel.
pub open spec fn net_dx(dt_ms: u64, dir: Direction) -> int {
    (if dir.right {
        VELOCITY * dt_ms
    } else {
        0
    }) - (if dir.left {
        VELOCITY * dt_ms
    } else {
        0
    })
}

/// Net movement along the y axis in one update: opposing keys cancel.
pub open spec fn net_dy(dt_ms: u64, dir: Direction) -> int {
    (if dir.up {
        VELOCITY * dt_ms
    } else {
        0
    }) - (if dir.down {
        VELOCITY * dt_ms
    } else {
        0
    })
}

/// The facing after one update. The movement rules run in the fixed order
/// up, down, left, right and each held key snaps the facing, so the last
/// held key in that order wins; with no key held the facing is kept.
pub open spec fn facing_after(f: Facing, dir: Direction) -> Facing {
    if dir.right {
        Facing::Right
    } else if dir.left {
        Facing::Left
    } else if dir.down {
        Facing::Down
    } else if dir.up {
        Facing::Up
    } else {
        f
    }
}

/// Third phase of an update: the held keys move the player along the world
/// axes and snap the facing.
pub open spec fn step_move(p: Player, dt_ms: u64, dir: Direction) -> Player {
    Player {
        position: WorldPosition {
            x: (p.position.x + net_dx(dt_ms, dir)) as i64,
            y: (p.position.y + net_dy(dt_ms, dir)) as i64,
        },
        rotation: facing_after(p.rotation, dir),
        ..p
    }
}

/// What one `Player::update` does: the three phases in order.
pub open spec fn spec_update(p: Player, dt_ms: u64, dir: Direction) -> Player {
    step_move(step_attack_tick(step_attack_start(p), dt_ms), dt_ms, dir)
}

/// The player after a sequence of updates, each an elapsed time paired with
/// the direction keys held during it.
pub open spec fn run_updates(p: Player, steps: Seq<(u64, Direction)>) -> Player
    decreases steps.len(),
{
    if steps.len() == 0 {
        p
    } else {
        run_updates(spec_update(p, steps[0].0, steps[0].1), steps.drop_first())
    }
}

/// The total elapsed time of a sequence of updates, in milliseconds.
pub open spec fn total_elapsed(steps: Seq<(u64, Direction)>) -> int
    decreases steps.len(),
{
    if steps.len() == 0 {
        0
    } else {
        steps[0].0 + total_elapsed(steps.drop_first())
    }
}

/// Updates preserve the state invariant.
pub proof fn lemma_update_preserves_wf(p: Player, dt_ms: u64, dir: Direction)
    requires
        p.wf(),
    ensures
        spec_update(p, dt_ms, dir).wf(),
        !spec_update(p, dt_ms, dir).start_attack,
{
}

/// A player with no swing in progress and no attack request armed stays
/// that way through any sequence of updates.
pub proof fn lemma_idle_stays_idle(p: Player, steps: Seq<(u64, Direction)>)
    requires
        !p.attacking,
        !p.start_attack,
        p.attack_timer is None,
    ensures
        !run_updates(p, steps).attacking,
        !run_updates(p, steps).start_attack,
        run_updates(p, steps).attack_timer is None,
    decreases steps.len(),
{
    if steps.len() > 0 {
        lemma_idle_stays_idle(spec_update(p, steps[0].0, steps[0].1), steps.drop_first());
    }
}

/// The total elapsed time of a sequence of updates is never negative.
proof fn lemma_total_elapsed_nonneg(steps: Seq<(u64, Direction)>)
    ensures
        total_elapsed(steps) >= 0,
    decreases steps.len(),
{
    if steps.len() > 0 {
        lemma_total_elapsed_nonneg(steps.drop_first());
    }
}

/// A swing outlasts any sequence of updates whose total elapsed time does
/// not overshoot the remaining countdown, and what is left of the
/// countdown is exactly the remainder.
pub proof fn lemma_attack_persists(p: Player, steps: Seq<(u64, Direction)>)
    requires
        p.wf(),
        p.attack_timer is Some,
        total_elapsed(steps) <= p.attack_timer->0,
    ensures
        run_updates(p, steps).attacking,
        run_updates(p, steps).attack_timer is Some,
        run_updates(p, steps).attack_timer->0 == p.attack_timer->0 - total_elapsed(steps),
    decreases steps.len(),
{
    if steps.len() > 0 {
        let dt = steps[0].0;
        let p1 = spec_update(p, dt, steps[0].1);
        lemma_total_elapsed_nonneg(steps.drop_first());
        lemma_attack_persists(p1, steps.drop_first());
    }
}

/// Every swing ends: once the total elapsed time of a sequence of updates
/// exceeds the remaining countdown, the player is no longer attacking and
/// the countdown is gone. (Elapsed time exactly equal to the countdown is
/// not enough: the swing ends on the first update that overshoots.)
pub proof fn lemma_attack_expires(p: Player, steps: Seq<(u64, Direction)>)
    requires
        p.wf(),
        p.attack_timer is Some,
        total_elapsed(steps) > p.attack_timer->0,
    ensures
        !run_updates(p, steps).attacking,
        !run_updates(p, steps).start_attack,
        run_updates(p, steps).attack_timer is None,
    decreases steps.len(),
{
    let t = p.attack_timer->0;
    if steps.len() > 0 {
        let dt = steps[0].0;
        let p1 = spec_update(p, dt, steps[0].1);
        if dt > t {
            lemma_idle_stays_idle(p1, steps.drop_first());
        } else {
            lemma_attack_expires(p1, steps.drop_first());
        }
    }
}

} // verus!
