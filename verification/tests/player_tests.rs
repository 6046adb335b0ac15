use delver::geom::ScreenPosition;
use delver::geom::WorldPosition;
use delver::geom::to_world_position;
use delver::player::ATTACK_MS;
use delver::player::Direction;
use delver::player::Facing;
use delver::player::Player;
use delver::player::VELOCITY;

fn no_keys() -> Direction {
    Direction { up: false, down: false, left: false, right: false }
}

#[test]
fn constants_match_the_game() {
    assert_eq!(VELOCITY, 250);
    assert_eq!(ATTACK_MS, 350);
}

#[test]
fn new_player_is_idle_at_origin() {
    let p = Player::new();
    assert_eq!(p.position, WorldPosition { x: 0, y: 0 });
    assert_eq!(p.rotation, Facing::Right);
    assert!(!p.attacking);
    assert!(!p.start_attack);
    assert_eq!(p.attack_timer, None);
}

#[test]
fn walk_right_100ms() {
    // 0.1 s at 250 units/s moves 25 units = 25000 thousandths.
    let mut p = Player::new();
    let dir = Direction { right: true, ..no_keys() };
    p.update(100, &dir);
    assert_eq!(p.position, WorldPosition { x: 25000, y: 0 });
    assert_eq!(p.rotation, Facing::Right);
    assert_eq!(p.rotation.degrees(), 0);
}

#[test]
fn walk_up_200ms() {
    // 0.2 s at 250 units/s moves 50 units up; facing snaps to +90 degrees.
    let mut p = Player::new();
    let dir = Direction { up: true, ..no_keys() };
    p.update(200, &dir);
    assert_eq!(p.position, WorldPosition { x: 0, y: 50000 });
    assert_eq!(p.rotation, Facing::Up);
    assert_eq!(p.rotation.degrees(), 90);
}

#[test]
fn walk_diagonal_up_right_100ms() {
    // Both axes move a full 25 units each; the right rule runs last in the
    // order up, down, left, right, so the facing snaps to the +x axis.
    let mut p = Player::new();
    let dir = Direction { up: true, right: true, ..no_keys() };
    p.update(100, &dir);
    assert_eq!(p.position, WorldPosition { x: 25000, y: 25000 });
    assert_eq!(p.rotation, Facing::Right);
}

#[test]
fn walk_down_and_left() {
    let mut p = Player::new();
    let dir = Direction { down: true, ..no_keys() };
    p.update(100, &dir);
    assert_eq!(p.position, WorldPosition { x: 0, y: -25000 });
    assert_eq!(p.rotation, Facing::Down);
    assert_eq!(p.rotation.degrees(), -90);

    let dir = Direction { left: true, ..no_keys() };
    p.update(100, &dir);
    assert_eq!(p.position, WorldPosition { x: -25000, y: -25000 });
    assert_eq!(p.rotation, Facing::Left);
    assert_eq!(p.rotation.degrees(), 180);
}

#[test]
fn opposing_keys_cancel_and_later_rule_sets_facing() {
    // Up and down together: no net y motion, facing set by the later rule.
    let mut p = Player::new();
    let dir = Direction { up: true, down: true, ..no_keys() };
    p.update(100, &dir);
    assert_eq!(p.position, WorldPosition { x: 0, y: 0 });
    assert_eq!(p.rotation, Facing::Down);

    // Left and right together: no net x motion, right wins.
    let dir = Direction { left: true, right: true, ..no_keys() };
    p.update(100, &dir);
    assert_eq!(p.position, WorldPosition { x: 0, y: 0 });
    assert_eq!(p.rotation, Facing::Right);
}

#[test]
fn facing_is_kept_when_no_key_is_held() {
    let mut p = Player::new();
    let dir = Direction { up: true, ..no_keys() };
    p.update(50, &dir);
    assert_eq!(p.rotation, Facing::Up);
    p.update(50, &no_keys());
    assert_eq!(p.rotation, Facing::Up);
    assert_eq!(p.position, WorldPosition { x: 0, y: 12500 });
}

#[test]
fn update_with_zero_elapsed_changes_nothing_but_the_latch() {
    let mut p = Player::new();
    p.update(0, &no_keys());
    assert_eq!(p.position, WorldPosition { x: 0, y: 0 });
    assert!(!p.attacking);
}

#[test]
fn attack_arms_the_latch_when_idle() {
    let mut p = Player::new();
    p.attack();
    assert!(p.start_attack);
    assert!(!p.attacking);
    assert_eq!(p.attack_timer, None);
}

#[test]
fn attack_lifecycle() {
    // Request, then tick 0.1 s: the swing starts at 0.35 s and is already
    // down to 0.25 s. Tick 0.2 s: 0.05 s left. Tick 0.1 s: overshoot, over.
    let mut p = Player::new();
    p.attack();
    p.update(100, &no_keys());
    assert!(p.attacking);
    assert_eq!(p.attack_timer, Some(250));
    assert!(!p.start_attack);

    p.update(200, &no_keys());
    assert!(p.attacking);
    assert_eq!(p.attack_timer, Some(50));

    p.update(100, &no_keys());
    assert!(!p.attacking);
    assert_eq!(p.attack_timer, None);
}

#[test]
fn attack_is_not_retriggerable_mid_swing() {
    let mut p = Player::new();
    p.attack();
    p.update(100, &no_keys());
    assert!(p.attacking);

    // A second request during the swing is dropped and the swing still
    // ends on schedule, not extended.
    p.attack();
    assert!(!p.start_attack);
    assert_eq!(p.attack_timer, Some(250));

    p.update(200, &no_keys());
    p.attack();
    assert!(!p.start_attack);
    p.update(100, &no_keys());
    assert!(!p.attacking);
    assert_eq!(p.attack_timer, None);
}

#[test]
fn attacking_tracks_the_timer_through_a_run() {
    // The sword shows exactly while the countdown is present.
    let mut p = Player::new();
    assert_eq!(p.attacking, p.attack_timer.is_some());
    p.attack();
    assert_eq!(p.attacking, p.attack_timer.is_some());
    for _ in 0..5 {
        p.update(90, &no_keys());
        assert_eq!(p.attacking, p.attack_timer.is_some());
        assert!(!p.start_attack);
    }
    assert!(!p.attacking);
}

#[test]
fn swing_ends_only_on_strict_overshoot() {
    // Elapsed time exactly equal to the countdown leaves a zero countdown
    // in place; the swing ends on the first update that overshoots.
    let mut p = Player::new();
    p.attack();
    p.update(350, &no_keys());
    assert!(p.attacking);
    assert_eq!(p.attack_timer, Some(0));
    p.update(1, &no_keys());
    assert!(!p.attacking);
    assert_eq!(p.attack_timer, None);
}

#[test]
fn one_long_update_ends_the_swing_it_started() {
    let mut p = Player::new();
    p.attack();
    p.update(400, &no_keys());
    assert!(!p.attacking);
    assert_eq!(p.attack_timer, None);
}

#[test]
fn walking_does_not_disturb_the_swing() {
    let mut p = Player::new();
    p.attack();
    let dir = Direction { right: true, ..no_keys() };
    p.update(100, &dir);
    assert!(p.attacking);
    assert_eq!(p.attack_timer, Some(250));
    assert_eq!(p.position, WorldPosition { x: 25000, y: 0 });

    p.update(300, &dir);
    assert!(!p.attacking);
    assert_eq!(p.position, WorldPosition { x: 100000, y: 0 });
}

#[test]
fn rotate_from_pos_is_inert() {
    let mut p = Player::new();
    let dir = Direction { up: true, ..no_keys() };
    p.update(100, &dir);
    let before = p;
    p.rotate_from_pos(WorldPosition { x: 77000, y: -3000 });
    assert_eq!(p, before);
}

#[test]
fn window_midpoint_maps_to_world_origin() {
    let center = ScreenPosition { x: 100000, y: 100000 };
    let w = to_world_position(center, center);
    assert_eq!(w, WorldPosition { x: 0, y: 0 });
}

#[test]
fn to_world_flips_y_and_recenters() {
    // A screen point right of and below the midpoint is right of and
    // below the origin in world space, i.e. has negative world y.
    let center = ScreenPosition { x: 100000, y: 100000 };
    let w = to_world_position(center, ScreenPosition { x: 150000, y: 130000 });
    assert_eq!(w, WorldPosition { x: 50000, y: -30000 });

    // Round trip: apply the screen transform to the world point by hand.
    let back = ScreenPosition { x: center.x + w.x, y: center.y - w.y };
    assert_eq!(back, ScreenPosition { x: 150000, y: 130000 });
}
