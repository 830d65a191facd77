use platformer_core::enemy::{Enemy, EnemyState, ENEMY_SPEED_MILLI};
use platformer_core::events::ContactPair;
use platformer_core::geom::{isqrt, pursuit_velocity, Vec2Fx};
use platformer_core::marker::MarkerQueue;
use platformer_core::player::{Direction, InputSnapshot, Player, PlayerIntent};
use platformer_core::portal::Portal;
use platformer_core::world::standard_clips;

fn no_input() -> InputSnapshot {
    InputSnapshot { jump_held: false, left_held: false, right_held: false }
}

#[test]
fn enemy_attacks_within_radius_and_returns_to_patrol() {
    let mut e = Enemy::spawn();
    assert!(matches!(e.state, EnemyState::Roaming));
    // Distance 81 units with an 80-unit radius: still roaming.
    e.update_by_distance(Vec2Fx { x: 0, y: 0 }, Vec2Fx { x: 81_000, y: 0 });
    assert!(matches!(e.state, EnemyState::Roaming));
    assert_eq!(e.velocity, Vec2Fx { x: -ENEMY_SPEED_MILLI, y: 0 });
    // Player moves to distance 50: attacking, velocity points at the player
    // scaled to the fixed speed.
    e.update_by_distance(Vec2Fx { x: 0, y: 0 }, Vec2Fx { x: 50_000, y: 0 });
    assert!(matches!(e.state, EnemyState::Attacking));
    assert_eq!(e.velocity, Vec2Fx { x: ENEMY_SPEED_MILLI, y: 0 });
    assert!(e.flip_x);
    // Player retreats to distance 90: back to roaming, resuming the
    // constant-magnitude horizontal patrol in the direction it was moving.
    e.update_by_distance(Vec2Fx { x: 0, y: 0 }, Vec2Fx { x: 90_000, y: 0 });
    assert!(matches!(e.state, EnemyState::Roaming));
    assert_eq!(e.velocity, Vec2Fx { x: ENEMY_SPEED_MILLI, y: 0 });
}

#[test]
fn enemy_boundary_distance_is_inside() {
    let mut e = Enemy::spawn();
    // Exactly at the radius: the boundary counts as inside.
    e.update_by_distance(Vec2Fx { x: 0, y: 0 }, Vec2Fx { x: 80_000, y: 0 });
    assert!(matches!(e.state, EnemyState::Attacking));
}

#[test]
fn enemy_bounce_reverses_horizontal_and_flips() {
    let mut e = Enemy::spawn();
    let captured = e.on_contact(&ContactPair { a: 3, b: 99 }, 3, 1);
    assert!(!captured);
    assert_eq!(e.velocity, Vec2Fx { x: ENEMY_SPEED_MILLI, y: 0 });
    assert!(e.flip_x);
    // A contact not involving this enemy changes nothing.
    let captured = e.on_contact(&ContactPair { a: 7, b: 99 }, 3, 1);
    assert!(!captured);
    assert_eq!(e.velocity, Vec2Fx { x: ENEMY_SPEED_MILLI, y: 0 });
    assert!(e.flip_x);
}

#[test]
fn enemy_eats_player_only_while_attacking() {
    let mut e = Enemy::spawn();
    // Roaming + player contact: a bounce, not a capture.
    let captured = e.on_contact(&ContactPair { a: 1, b: 3 }, 3, 1);
    assert!(!captured);
    assert!(matches!(e.state, EnemyState::Roaming));
    // Attack, then touch the player with the handles in the other order.
    e.update_by_distance(Vec2Fx { x: 0, y: 0 }, Vec2Fx { x: 10_000, y: 0 });
    assert!(matches!(e.state, EnemyState::Attacking));
    let captured = e.on_contact(&ContactPair { a: 3, b: 1 }, 3, 1);
    assert!(captured);
    assert!(matches!(e.state, EnemyState::Eating));
    assert_eq!(e.velocity, Vec2Fx { x: 0, y: 0 });
    // Eating is absorbing: neither distance nor contact moves it again.
    e.update_by_distance(Vec2Fx { x: 0, y: 0 }, Vec2Fx { x: 500_000, y: 0 });
    assert!(matches!(e.state, EnemyState::Eating));
    assert_eq!(e.velocity, Vec2Fx { x: 0, y: 0 });
    let captured = e.on_contact(&ContactPair { a: 1, b: 3 }, 3, 1);
    assert!(!captured);
    assert!(matches!(e.state, EnemyState::Eating));
}

#[test]
fn pursuit_zero_distance_gives_zero_velocity() {
    let p = Vec2Fx { x: 12_000, y: -7_000 };
    let v = pursuit_velocity(p, p, ENEMY_SPEED_MILLI);
    assert_eq!(v, Vec2Fx { x: 0, y: 0 });
}

#[test]
fn pursuit_diagonal_is_speed_bounded() {
    let v = pursuit_velocity(
        Vec2Fx { x: 0, y: 0 },
        Vec2Fx { x: 30_000, y: 40_000 },
        ENEMY_SPEED_MILLI,
    );
    // Distance 50 units: the unit vector is (3/5, 4/5), scaled to speed 30.
    assert_eq!(v, Vec2Fx { x: 18_000, y: 24_000 });
}

#[test]
fn isqrt_exact_values() {
    assert_eq!(isqrt(0), 0);
    assert_eq!(isqrt(1), 1);
    assert_eq!(isqrt(3), 1);
    assert_eq!(isqrt(4), 2);
    assert_eq!(isqrt(2_499_999_999), 49_999);
    assert_eq!(isqrt(2_500_000_000), 50_000);
}

#[test]
fn jump_fires_only_on_grounded_rearmed_press() {
    let (_, clips, _, _) = standard_clips();
    let mut p = Player::spawn(&clips);
    // The jump spawns disarmed: a held key does nothing until released once.
    p.movement_tick(InputSnapshot { jump_held: true, ..no_input() }, &clips);
    assert!(p.grounded);
    assert_eq!(p.velocity, Vec2Fx { x: 0, y: 0 });
    // Release re-arms.
    p.movement_tick(no_input(), &clips);
    assert!(!p.cooldown);
    // Press: the jump fires.
    p.movement_tick(InputSnapshot { jump_held: true, ..no_input() }, &clips);
    assert_eq!(p.velocity, Vec2Fx { x: 0, y: 50_000 });
    assert!(!p.grounded);
    assert!(p.cooldown);
    assert_eq!(p.playback.clip, clips.jump);
    assert_eq!(p.playback.elapsed_ms, 0);
    // Holding does not re-trigger.
    let vel_before = p.velocity;
    p.movement_tick(InputSnapshot { jump_held: true, ..no_input() }, &clips);
    assert_eq!(p.velocity, vel_before);
    assert!(p.cooldown);
    // Releasing mid-air re-arms the debounce, but airborne presses do not jump.
    p.movement_tick(no_input(), &clips);
    assert!(!p.cooldown);
    p.movement_tick(InputSnapshot { jump_held: true, ..no_input() }, &clips);
    assert!(!p.grounded);
    assert_eq!(p.velocity, vel_before);
    // Land: a contact while airborne and no longer rising.
    p.velocity = Vec2Fx { x: 0, y: 0 };
    p.on_contact(&ContactPair { a: 1, b: 42 }, 1, &clips);
    assert!(p.grounded);
    assert!(!p.cooldown);
    assert_eq!(p.playback.clip, clips.idle);
    assert_eq!(p.playback.elapsed_ms, 0);
    // Once re-grounded, pressing again jumps.
    p.movement_tick(InputSnapshot { jump_held: true, ..no_input() }, &clips);
    assert_eq!(p.velocity, Vec2Fx { x: 0, y: 50_000 });
    assert!(!p.grounded);
}

#[test]
fn walk_sets_direction_flip_and_clip() {
    let (_, clips, _, _) = standard_clips();
    let mut p = Player::spawn(&clips);
    assert!(matches!(p.intent(&clips), PlayerIntent::Idle));
    let dx = p.movement_tick(InputSnapshot { left_held: true, ..no_input() }, &clips);
    assert_eq!(dx, -200);
    assert!(matches!(p.direction, Direction::Left));
    assert!(!p.flip_x);
    assert_eq!(p.playback.clip, clips.walk);
    assert_eq!(p.playback.elapsed_ms, 0);
    assert!(matches!(p.intent(&clips), PlayerIntent::Walking));
    let dx = p.movement_tick(InputSnapshot { right_held: true, ..no_input() }, &clips);
    assert_eq!(dx, 200);
    assert!(matches!(p.direction, Direction::Right));
    assert!(p.flip_x);
    assert_eq!(p.playback.clip, clips.walk);
    // No input while grounded: back to idle, with a reset.
    let dx = p.movement_tick(no_input(), &clips);
    assert_eq!(dx, 0);
    assert_eq!(p.playback.clip, clips.idle);
    assert_eq!(p.playback.elapsed_ms, 0);
}

#[test]
fn falling_past_apex_switches_to_swim() {
    let (_, clips, _, _) = standard_clips();
    let mut p = Player::spawn(&clips);
    p.movement_tick(no_input(), &clips);
    p.movement_tick(InputSnapshot { jump_held: true, ..no_input() }, &clips);
    assert_eq!(p.playback.clip, clips.jump);
    // Physics pulls the vertical velocity down past the apex.
    p.velocity = Vec2Fx { x: 0, y: 0 };
    p.movement_tick(InputSnapshot { jump_held: true, ..no_input() }, &clips);
    assert_eq!(p.playback.clip, clips.swim);
    assert_eq!(p.playback.elapsed_ms, 0);
}

#[test]
fn capture_is_terminal_for_movement() {
    let (_, clips, _, _) = standard_clips();
    let mut p = Player::spawn(&clips);
    p.capture(&clips);
    assert!(p.captured);
    assert!(!p.gravity_enabled);
    assert_eq!(p.playback.clip, clips.captured);
    assert_eq!(p.playback.elapsed_ms, 0);
    // Movement and landings no longer respond.
    let dx = p.movement_tick(InputSnapshot { jump_held: true, left_held: true, ..no_input() }, &clips);
    assert_eq!(dx, 0);
    assert_eq!(p.playback.clip, clips.captured);
    p.velocity = Vec2Fx { x: 0, y: 0 };
    p.on_contact(&ContactPair { a: 1, b: 9 }, 1, &clips);
    assert_eq!(p.playback.clip, clips.captured);
    assert!(p.captured);
}

#[test]
fn portal_opens_exactly_once() {
    let (_, _, portal_clips, _) = standard_clips();
    let mut portal = Portal::spawn(&portal_clips);
    assert!(!portal.opened);
    assert_eq!(portal.playback.clip, portal_clips.closed);
    // Treasures remain: no transition.
    assert!(!portal.update(2, &portal_clips));
    assert!(!portal.opened);
    // Count reaches zero: opens, clip reassigned with a reset, cue requested.
    assert!(portal.update(0, &portal_clips));
    assert!(portal.opened);
    assert_eq!(portal.playback.clip, portal_clips.opened);
    assert_eq!(portal.playback.elapsed_ms, 0);
    // Re-evaluating afterward is a no-op, whatever the count reads.
    assert!(!portal.update(0, &portal_clips));
    assert!(portal.opened);
    assert!(!portal.update(5, &portal_clips));
    assert!(portal.opened);
    assert_eq!(portal.playback.clip, portal_clips.opened);
}

#[test]
fn marker_guard_and_exact_expiry() {
    let mut q = MarkerQueue::new();
    assert!(q.try_spawn(0, 200, 0));
    // A second spawn while one is alive is a no-op.
    assert!(!q.try_spawn(1, 500, 50));
    let m = q.active.unwrap();
    assert_eq!(m.message, 0);
    assert_eq!(m.spawned_at_ms, 0);
    assert_eq!(m.duration_ms, 200);
    // Alive at 199 ms, alive at exactly 200 ms, gone at 201 ms.
    q.expire_tick(199);
    assert!(q.active.is_some());
    q.expire_tick(200);
    assert!(q.active.is_some());
    q.expire_tick(201);
    assert!(q.active.is_none());
    // The slot is free again.
    assert!(q.try_spawn(2, 200, 300));
    assert_eq!(q.active.unwrap().message, 2);
}

#[test]
fn terminal_marker_exempt_from_guard_and_expiry() {
    let mut q = MarkerQueue::new();
    assert!(q.try_spawn(3, 200, 10));
    q.spawn_terminal();
    assert!(q.terminal_active);
    assert!(q.active.is_some());
    q.expire_tick(10_000);
    // The ordinary marker expired; the terminal one never does.
    assert!(q.active.is_none());
    assert!(q.terminal_active);
}
