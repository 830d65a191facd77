use platformer_core::events::ContactPair;
use platformer_core::geom::Vec2Fx;
use platformer_core::level::{
    boundary_colliders, parse_level, tile_to_world, wall_positions, LevelMap, Tile, MAP_HEIGHT,
    MAP_WIDTH,
};
use platformer_core::marker::{message_text, terminal_text};
use platformer_core::player::InputSnapshot;
use platformer_core::treasure::{count_live, find_linked_treasure, TreasureSlot};
use platformer_core::world::{
    draw_message_index, draw_percent, load_world, message_spawn_decision, spawn_world, CueKind,
};
use platformer_core::enemy::EnemyState;

/// A level grid of empty tiles with the given marker characters placed at
/// (column, bottom-up row), rendered as the whitespace-separated text lines the
/// loader reads (top line first).
fn grid_lines(markers: &[(usize, usize, char)]) -> Vec<Vec<char>> {
    let mut grid = vec![vec!['0'; MAP_WIDTH]; MAP_HEIGHT];
    for &(col, row, c) in markers {
        grid[row][col] = c;
    }
    let mut lines = Vec::new();
    for row in (0..MAP_HEIGHT).rev() {
        let mut line = Vec::new();
        for col in 0..MAP_WIDTH {
            if col > 0 {
                line.push(' ');
            }
            line.push(grid[row][col]);
        }
        lines.push(line);
    }
    lines
}

fn no_input() -> InputSnapshot {
    InputSnapshot { jump_held: false, left_held: false, right_held: false }
}

#[test]
fn parse_rejects_short_input() {
    let lines: Vec<Vec<char>> = vec![vec!['0'; MAP_WIDTH]; MAP_HEIGHT - 1];
    assert!(parse_level(&lines).is_none());
}

#[test]
fn parse_rejects_narrow_row() {
    let mut lines = grid_lines(&[]);
    lines[7] = "0 0 0".chars().collect();
    assert!(parse_level(&lines).is_none());
}

#[test]
fn parse_reads_tiles_spawns_and_lists() {
    let lines = grid_lines(&[
        (4, 2, 'P'),
        (30, 1, 'O'),
        (10, 5, 'E'),
        (20, 7, 'E'),
        (6, 3, 'T'),
        (7, 3, 'T'),
        (0, 0, '1'),
        (1, 0, '1'),
        (9, 9, 'x'),
    ]);
    let m = parse_level(&lines).unwrap();
    assert_eq!(m.tiles.len(), MAP_HEIGHT);
    assert_eq!(m.tiles[0].len(), MAP_WIDTH);
    assert!(matches!(m.tiles[0][0], Tile::Wall));
    assert!(matches!(m.tiles[0][1], Tile::Wall));
    assert!(matches!(m.tiles[0][2], Tile::Empty));
    // Unknown symbols are leniently read as empty tiles.
    assert!(matches!(m.tiles[9][9], Tile::Empty));
    // Marker cells are empty tiles carrying a spawn.
    assert!(matches!(m.tiles[2][4], Tile::Empty));
    assert_eq!(m.player_spawn, (4, 2));
    assert_eq!(m.portal_spawn, (30, 1));
    assert_eq!(m.enemies, vec![(10, 5), (20, 7)]);
    assert_eq!(m.treasures, vec![(6, 3), (7, 3)]);
    let walls = wall_positions(&m);
    assert_eq!(walls, vec![(0, 0), (1, 0)]);
}

#[test]
fn parse_last_player_marker_wins() {
    let lines = grid_lines(&[(3, 2, 'P'), (8, 11, 'P')]);
    let m = parse_level(&lines).unwrap();
    assert_eq!(m.player_spawn, (8, 11));
}

#[test]
fn parse_without_markers_defaults_to_origin() {
    let lines = grid_lines(&[]);
    let m = parse_level(&lines).unwrap();
    assert_eq!(m.player_spawn, (0, 0));
    assert_eq!(m.portal_spawn, (0, 0));
    assert!(m.enemies.is_empty());
    assert!(m.treasures.is_empty());
}

#[test]
fn tile_to_world_scales_by_tile_size() {
    let v = tile_to_world((2, 3));
    assert_eq!(v, Vec2Fx { x: 32_000, y: 48_000 });
}

#[test]
fn boundary_colliders_exact() {
    let b = boundary_colliders();
    assert_eq!(b.len(), 3);
    assert_eq!(b[0].center, Vec2Fx { x: 288_000, y: -8_000 });
    assert_eq!(b[0].half_extents, Vec2Fx { x: 288_000, y: 0 });
    assert_eq!(b[1].center, Vec2Fx { x: -8_000, y: 160_000 });
    assert_eq!(b[2].center, Vec2Fx { x: 568_000, y: 160_000 });
}

#[test]
fn classification_is_order_independent() {
    let ts = vec![
        TreasureSlot { id: 3, position: Vec2Fx { x: 0, y: 0 }, alive: true },
        TreasureSlot { id: 4, position: Vec2Fx { x: 16_000, y: 0 }, alive: true },
    ];
    let ab = ContactPair { a: 1, b: 4 };
    let ba = ContactPair { a: 4, b: 1 };
    assert_eq!(find_linked_treasure(&ts, &ab, 1), Some(1));
    assert_eq!(find_linked_treasure(&ts, &ba, 1), Some(1));
    assert!(ab.involves(4) && ba.involves(4));
    assert!(ab.links(1, 4) && ba.links(1, 4) && ab.links(4, 1));
    let unrelated = ContactPair { a: 2, b: 4 };
    assert_eq!(find_linked_treasure(&ts, &unrelated, 1), None);
}

fn build_world(markers: &[(usize, usize, char)]) -> platformer_core::world::World {
    let lines = grid_lines(markers);
    let m = parse_level(&lines).unwrap();
    spawn_world(&m)
}

#[test]
fn collecting_last_treasure_opens_portal_same_tick() {
    // One treasure, no enemies: the treasure's entity id is 3.
    let mut w = build_world(&[(6, 3, 'T'), (30, 1, 'O'), (4, 2, 'P')]);
    assert_eq!(w.treasures.len(), 1);
    assert_eq!(w.treasures[0].id, 3);
    assert!(w.treasures[0].alive);
    assert!(!w.portal.opened);
    assert_eq!(w.live_treasures(), 1);
    let events = vec![ContactPair { a: 3, b: 1 }];
    let fx = w.tick(
        no_input(),
        Vec2Fx { x: 0, y: 0 },
        Vec2Fx { x: 0, y: 0 },
        &vec![],
        &events,
        16,
        16,
    );
    assert!(!w.treasures[0].alive);
    assert_eq!(w.live_treasures(), 0);
    // The portal transitions Closed to Opened within the same tick.
    assert!(w.portal.opened);
    assert_eq!(w.portal.playback.clip, w.portal_clips.opened);
    assert!(fx.cues.contains(&CueKind::PortalOpen));
    // One collection cue was requested alongside.
    assert!(fx.cues.contains(&CueKind::Coin) || fx.cues.contains(&CueKind::Noise));
    assert!(!fx.captured_now);
    // Re-evaluating on a later tick is a no-op.
    let fx = w.tick(
        no_input(),
        Vec2Fx { x: 0, y: 0 },
        Vec2Fx { x: 0, y: 0 },
        &vec![],
        &vec![],
        16,
        32,
    );
    assert!(w.portal.opened);
    assert!(fx.cues.is_empty());
}

#[test]
fn duplicate_and_stale_collection_events_are_ignored() {
    let mut w = build_world(&[(6, 3, 'T'), (8, 3, 'T')]);
    assert_eq!(w.live_treasures(), 2);
    // The same contact reported twice in one batch collects once — and
    // requests exactly one collection cue.
    let events = vec![ContactPair { a: 1, b: 3 }, ContactPair { a: 3, b: 1 }];
    let fx = w.tick(
        no_input(),
        Vec2Fx { x: 0, y: 0 },
        Vec2Fx { x: 0, y: 0 },
        &vec![],
        &events,
        16,
        16,
    );
    assert!(!w.treasures[0].alive);
    assert!(w.treasures[1].alive);
    assert_eq!(w.live_treasures(), 1);
    assert_eq!(fx.cues.len(), 1);
    assert!(fx.cues[0] == CueKind::Coin || fx.cues[0] == CueKind::Noise);
    // A stale event against the already-collected entity resolves to nothing:
    // no despawn, no cue.
    let events = vec![ContactPair { a: 1, b: 3 }];
    let fx = w.tick(
        no_input(),
        Vec2Fx { x: 0, y: 0 },
        Vec2Fx { x: 0, y: 0 },
        &vec![],
        &events,
        16,
        32,
    );
    assert_eq!(w.live_treasures(), 1);
    assert!(!w.portal.opened);
    assert!(fx.cues.is_empty());
}

#[test]
fn one_cue_per_collection_and_coin_under_marker_guard() {
    let mut w = build_world(&[(6, 3, 'T'), (8, 3, 'T')]);
    // An ordinary marker is already alive: the spawn attempt on collection is
    // a no-op and the coin cue is requested instead of the noise cue.
    assert!(w.markers.try_spawn(5, 200, 0));
    let events = vec![ContactPair { a: 1, b: 3 }, ContactPair { a: 4, b: 1 }];
    let fx = w.tick(
        no_input(),
        Vec2Fx { x: 0, y: 0 },
        Vec2Fx { x: 0, y: 0 },
        &vec![],
        &events,
        16,
        16,
    );
    // Both treasures collected: one cue each, plus the portal transition.
    assert_eq!(w.live_treasures(), 0);
    assert_eq!(fx.cues, vec![CueKind::Coin, CueKind::Coin, CueKind::PortalOpen]);
    // The alive marker was kept, not replaced.
    let m = w.markers.active.unwrap();
    assert_eq!(m.message, 5);
    assert_eq!(m.spawned_at_ms, 0);
}

#[test]
fn capture_sequence_freezes_player_and_enemy() {
    // One enemy (id 3) near the player.
    let mut w = build_world(&[(10, 5, 'E'), (6, 3, 'T')]);
    assert_eq!(w.enemies.len(), 1);
    assert_eq!(w.enemies[0].id, 3);
    let player_pos = Vec2Fx { x: 0, y: 0 };
    let enemy_pos = vec![Vec2Fx { x: 50_000, y: 0 }];
    // Tick one: the enemy sees the player inside its radius and attacks.
    w.tick(no_input(), player_pos, Vec2Fx { x: 0, y: 0 }, &enemy_pos, &vec![], 16, 16);
    assert!(matches!(w.enemies[0].enemy.state, EnemyState::Attacking));
    assert_eq!(w.enemies[0].enemy.velocity, Vec2Fx { x: -30_000, y: 0 });
    assert!(!w.enemies[0].enemy.flip_x);
    // Tick two: contact with the player while attacking: the capture.
    let events = vec![ContactPair { a: 1, b: 3 }];
    let fx = w.tick(no_input(), player_pos, Vec2Fx { x: 0, y: 0 }, &enemy_pos, &events, 16, 32);
    assert!(fx.captured_now);
    assert!(fx.cues.contains(&CueKind::Crunch));
    assert!(matches!(w.enemies[0].enemy.state, EnemyState::Eating));
    assert_eq!(w.enemies[0].enemy.velocity, Vec2Fx { x: 0, y: 0 });
    assert!(w.player.captured);
    assert!(!w.player.gravity_enabled);
    assert_eq!(w.player.playback.clip, w.player_clips.captured);
    assert!(w.markers.terminal_active);
    // The treasure was not involved and survives.
    assert_eq!(w.live_treasures(), 1);
    // Later ticks leave both frozen.
    let fx = w.tick(
        InputSnapshot { jump_held: true, left_held: true, right_held: false },
        player_pos,
        Vec2Fx { x: 0, y: 0 },
        &enemy_pos,
        &vec![],
        16,
        48,
    );
    assert_eq!(fx.player_dx, 0);
    assert!(matches!(w.enemies[0].enemy.state, EnemyState::Eating));
    assert!(w.player.captured);
    assert_eq!(w.player.playback.clip, w.player_clips.captured);
}

#[test]
fn world_jump_scenario() {
    let mut w = build_world(&[(4, 2, 'P')]);
    let pos = Vec2Fx { x: 64_000, y: 32_000 };
    // Release once to arm, then press: the jump fires.
    w.tick(no_input(), pos, Vec2Fx { x: 0, y: 0 }, &vec![], &vec![], 16, 16);
    let fx = w.tick(
        InputSnapshot { jump_held: true, left_held: false, right_held: false },
        pos,
        Vec2Fx { x: 0, y: 0 },
        &vec![],
        &vec![],
        16,
        32,
    );
    assert_eq!(fx.player_dx, 0);
    assert_eq!(w.player.velocity, Vec2Fx { x: 0, y: 50_000 });
    assert!(!w.player.grounded);
    assert!(w.player.cooldown);
    assert_eq!(w.player.playback.clip, w.player_clips.jump);
    // The cursor advanced only after the reassignment: one 16 ms tick in.
    assert_eq!(w.player.playback.elapsed_ms, 16);
}

#[test]
fn message_texts_match_fixed_set() {
    assert_eq!(message_text(0), "CONSUME");
    assert_eq!(message_text(2), "CONFORM");
    assert_eq!(message_text(6), "HONOR\nAPATHY");
    assert_eq!(terminal_text(), "YOU WERE\nDEVOURED.");
}

#[test]
fn draws_stay_in_range() {
    for _ in 0..200 {
        assert!(draw_percent() < 100);
        assert!(draw_message_index() < 7);
    }
}

#[test]
fn message_decision_frequency_and_guard() {
    assert!(message_spawn_decision(false, 0));
    assert!(message_spawn_decision(false, 19));
    assert!(!message_spawn_decision(false, 20));
    assert!(!message_spawn_decision(false, 99));
    assert!(!message_spawn_decision(true, 0));
}

#[test]
fn load_world_accepts_exactly_usable_grids() {
    let short: Vec<Vec<char>> = vec![vec!['0'; MAP_WIDTH]; 3];
    assert!(load_world(&short).is_none());
    let lines = grid_lines(&[(4, 2, 'P'), (6, 3, 'T')]);
    let w = load_world(&lines).unwrap();
    assert!(!w.portal.opened);
    assert!(w.markers.active.is_none());
    assert_eq!(w.time_ms, 0);
    assert_eq!(w.live_treasures(), 1);
}

#[test]
fn count_live_counts_only_alive() {
    let ts = vec![
        TreasureSlot { id: 3, position: Vec2Fx { x: 0, y: 0 }, alive: true },
        TreasureSlot { id: 4, position: Vec2Fx { x: 0, y: 0 }, alive: false },
        TreasureSlot { id: 5, position: Vec2Fx { x: 0, y: 0 }, alive: true },
    ];
    assert_eq!(count_live(&ts), 2);
}

#[test]
fn spawn_world_initial_invariants() {
    let lines = grid_lines(&[(4, 2, 'P'), (10, 5, 'E'), (6, 3, 'T'), (30, 1, 'O')]);
    let m = parse_level(&lines).unwrap();
    let w = spawn_world(&m);
    assert!(w.player.grounded);
    assert!(w.player.cooldown);
    assert!(!w.player.captured);
    assert!(matches!(w.player.direction, platformer_core::player::Direction::Left));
    assert!(!w.player.flip_x);
    assert_eq!(w.player_clips.idle, 0);
    assert_eq!(w.portal_clips.opened, 7);
    assert_eq!(w.enemy_clip, 5);
    assert_eq!(w.clips.clips.len(), 8);
    assert_eq!(w.player.playback.clip, w.player_clips.idle);
    assert_eq!(w.player.playback.elapsed_ms, 0);
    assert_eq!(w.player_id, 1);
    assert_eq!(w.portal_id, 2);
    assert!(matches!(w.enemies[0].enemy.state, EnemyState::Roaming));
    assert_eq!(w.enemies[0].enemy.velocity, Vec2Fx { x: -30_000, y: 0 });
    assert!(w.treasures[0].alive);
    assert_eq!(w.treasures[0].position, Vec2Fx { x: 96_000, y: 48_000 });
    assert!(!w.portal.opened);
    assert!(w.markers.active.is_none());
    assert!(!w.markers.terminal_active);
    assert_eq!(w.time_ms, 0);
    // A LevelMap built by hand drives the same planner.
    let manual = LevelMap {
        tiles: m.tiles,
        player_spawn: (4, 2),
        portal_spawn: (30, 1),
        enemies: vec![(10, 5)],
        treasures: vec![(6, 3)],
    };
    let w2 = spawn_world(&manual);
    assert_eq!(w2.treasures[0].position, Vec2Fx { x: 96_000, y: 48_000 });
}
