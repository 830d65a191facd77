//! The world: every entity's behavior state, the shared clip table, and the
//! per-tick drive. Each simulation tick the physics step runs first and hands
//! the core fresh positions, velocities and this tick's batch of
//! contact-begin events; the core then routes the events to the machines,
//! runs the distance- and input-driven updates, re-evaluates the portal,
//! advances every animation cursor, and expires stale markers — in that fixed
//! order, so a clip swap and its cursor reset are never split across the
//! advancement step.
use vstd::prelude::*;
use crate::anim::Clip;
use crate::anim::ClipMode;
use crate::anim::ClipTable;
use crate::anim::Frame;
use crate::anim::Playback;
use crate::anim::clip_wf;
use crate::anim::lemma_fresh_playback_wf;
use crate::anim::total_from;
use crate::enemy::Enemy;
use crate::enemy::EnemyState;
use crate::events::ContactPair;
use crate::events::spec_links;
use crate::geom::Vec2Fx;
use crate::level::LevelMap;
use crate::level::tile_to_world;
use crate::marker::MARKER_DURATION_MS;
use crate::marker::MESSAGE_COUNT;
use crate::marker::MarkerQueue;
use crate::player::Player;
use crate::player::PlayerClips;
use crate::player::InputSnapshot;
use crate::portal::Portal;
use crate::portal::PortalClips;
use crate::treasure::TreasureSlot;
use crate::treasure::count_live;
use crate::treasure::find_linked_treasure;
use crate::treasure::linked_alive_at;
use crate::treasure::live_count;

verus! {

/// Percentage of treasure collections that pop a message marker.
pub const MSG_FREQUENCY: u32 = 20;

/// A fire-and-forget request to the presentation layer.
#[derive(Clone, Copy, PartialEq, Eq, Structural, Debug)]
pub enum CueKind {
    Coin,
    Noise,
    Crunch,
    PortalOpen,
}

/// One enemy entity: its stable id, its behavior state, and its animation
/// playback (the enemy clip is assigned at spawn and never swapped).
#[derive(Clone, Copy, PartialEq, Eq, Structural, Debug)]
pub struct EnemySlot {
    pub id: u64,
    pub enemy: Enemy,
    pub playback: Playback,
}

/// What one tick hands back to the surrounding engine.
pub struct TickEffects {
    /// Horizontal nudge to apply to the player's position.
    pub player_dx: i64,
    /// Whether an enemy captured the player this tick.
    pub captured_now: bool,
    /// Audio/visual cue requests, in the order they arose.
    pub cues: Vec<CueKind>,
}

/// Whether a treasure collection pops a message marker: a draw under the
/// configured frequency, guarded so that a second ordinary marker is never
/// requested while one is alive.
pub open spec fn spec_message_decision(marker_alive: bool, draw: int) -> bool {
    !marker_alive && draw < MSG_FREQUENCY
}

pub fn message_spawn_decision(marker_alive: bool, draw: u32) -> (r: bool)
    ensures
        r == spec_message_decision(marker_alive, draw as int),
{
    !marker_alive && draw < MSG_FREQUENCY
}

/// A uniform draw of a percentage, for the message-frequency decision.
pub fn draw_percent() -> (r: u32)
    ensures
        r < 100,
{
    crate::rng::draw_below(100)
}

/// A uniform draw of a message index from the fixed message set.
pub fn draw_message_index() -> (r: usize)
    ensures
        r < MESSAGE_COUNT,
{
    crate::rng::draw_below(MESSAGE_COUNT as u32) as usize
}

fn clip1(a: usize, dur: u64, mode: ClipMode) -> (c: Clip)
    requires
        1 <= dur <= 1_000_000,
    ensures
        c.frames@ == seq![Frame { sprite_index: a, duration_ms: dur }],
        c.mode == mode,
        clip_wf(c),
{
    let mut f: Vec<Frame> = Vec::new();
    f.push(Frame { sprite_index: a, duration_ms: dur });
    proof {
        assert(f@ =~= seq![Frame { sprite_index: a, duration_ms: dur }]);
        assert(total_from(f@, 1) == 0);
        assert(total_from(f@, 0) == dur);
    }
    Clip { frames: f, mode }
}

fn clip2(a: usize, b: usize, dur: u64, mode: ClipMode) -> (c: Clip)
    requires
        1 <= dur <= 1_000_000,
    ensures
        c.frames@ == seq![
            Frame { sprite_index: a, duration_ms: dur },
            Frame { sprite_index: b, duration_ms: dur },
        ],
        c.mode == mode,
        clip_wf(c),
{
    let mut f: Vec<Frame> = Vec::new();
    f.push(Frame { sprite_index: a, duration_ms: dur });
    f.push(Frame { sprite_index: b, duration_ms: dur });
    proof {
        assert(f@ =~= seq![
            Frame { sprite_index: a, duration_ms: dur },
            Frame { sprite_index: b, duration_ms: dur },
        ]);
        assert(total_from(f@, 2) == 0);
        assert(total_from(f@, 1) == dur);
        assert(total_from(f@, 0) == 2 * dur);
    }
    Clip { frames: f, mode }
}

/// The clip-table indices the spawn planner hands out: the player's five
/// clips, the portal's two, and the enemy's swim clip.
pub open spec fn standard_player_clips() -> PlayerClips {
    PlayerClips { idle: 0, walk: 1, jump: 2, swim: 3, captured: 4 }
}

pub open spec fn standard_portal_clips() -> PortalClips {
    PortalClips { closed: 6, opened: 7 }
}

pub open spec fn standard_enemy_clip() -> usize {
    5
}

/// The exact clip table the spawn planner builds: the player's idle, walk,
/// jump, swim and terminal captured clips, the enemy's swim clip, and the
/// portal's closed and opened clips, frame by frame.
pub open spec fn standard_table(t: ClipTable) -> bool {
    &&& t.wf()
    &&& t.clips@.len() == 8
    &&& t.clips@[0].frames@ == seq![Frame { sprite_index: 0, duration_ms: 1 }]
    &&& t.clips@[0].mode == ClipMode::Looping
    &&& t.clips@[1].frames@ == seq![
        Frame { sprite_index: 1, duration_ms: 250 },
        Frame { sprite_index: 2, duration_ms: 250 },
        Frame { sprite_index: 3, duration_ms: 250 },
        Frame { sprite_index: 2, duration_ms: 250 },
    ]
    &&& t.clips@[1].mode == ClipMode::Looping
    &&& t.clips@[2].frames@ == seq![
        Frame { sprite_index: 4, duration_ms: 250 },
        Frame { sprite_index: 5, duration_ms: 250 },
    ]
    &&& t.clips@[2].mode == ClipMode::Looping
    &&& t.clips@[3].frames@ == seq![
        Frame { sprite_index: 6, duration_ms: 250 },
        Frame { sprite_index: 7, duration_ms: 250 },
    ]
    &&& t.clips@[3].mode == ClipMode::Looping
    &&& t.clips@[4].frames@ == seq![Frame { sprite_index: 8, duration_ms: 250 }]
    &&& t.clips@[4].mode == ClipMode::OnceHold
    &&& t.clips@[5].frames@ == seq![
        Frame { sprite_index: 0, duration_ms: 250 },
        Frame { sprite_index: 1, duration_ms: 250 },
    ]
    &&& t.clips@[5].mode == ClipMode::Looping
    &&& t.clips@[6].frames@ == seq![Frame { sprite_index: 0, duration_ms: 250 }]
    &&& t.clips@[6].mode == ClipMode::Looping
    &&& t.clips@[7].frames@ == seq![
        Frame { sprite_index: 2, duration_ms: 250 },
        Frame { sprite_index: 1, duration_ms: 250 },
    ]
    &&& t.clips@[7].mode == ClipMode::Looping
}

/// Build the standard clip table. The idle clip is a one-frame clip of
/// negligible duration, so the idle pose is always sprite 0 without cycling.
pub fn standard_clips() -> (r: (ClipTable, PlayerClips, PortalClips, usize))
    ensures
        standard_table(r.0),
        r.0.wf(),
        r.1 == standard_player_clips(),
        r.2 == standard_portal_clips(),
        r.3 == standard_enemy_clip(),
{
    let idle = clip1(0, 1, ClipMode::Looping);
    let jump = clip2(4, 5, 250, ClipMode::Looping);
    let swim = clip2(6, 7, 250, ClipMode::Looping);
    let captured = clip1(8, 250, ClipMode::OnceHold);
    let enemy_swim = clip2(0, 1, 250, ClipMode::Looping);
    let portal_closed = clip1(0, 250, ClipMode::Looping);
    let portal_opened = clip2(2, 1, 250, ClipMode::Looping);
    let mut walk_frames: Vec<Frame> = Vec::new();
    walk_frames.push(Frame { sprite_index: 1, duration_ms: 250 });
    walk_frames.push(Frame { sprite_index: 2, duration_ms: 250 });
    walk_frames.push(Frame { sprite_index: 3, duration_ms: 250 });
    walk_frames.push(Frame { sprite_index: 2, duration_ms: 250 });
    proof {
        assert(walk_frames@ =~= seq![
            Frame { sprite_index: 1, duration_ms: 250 },
            Frame { sprite_index: 2, duration_ms: 250 },
            Frame { sprite_index: 3, duration_ms: 250 },
            Frame { sprite_index: 2, duration_ms: 250 },
        ]);
        assert(total_from(walk_frames@, 4) == 0);
        assert(total_from(walk_frames@, 3) == 250);
        assert(total_from(walk_frames@, 2) == 500);
        assert(total_from(walk_frames@, 1) == 750);
        assert(total_from(walk_frames@, 0) == 1000);
    }
    let walk = Clip { frames: walk_frames, mode: ClipMode::Looping };
    assert(clip_wf(walk));
    let mut clips: Vec<Clip> = Vec::new();
    clips.push(idle);
    clips.push(walk);
    clips.push(jump);
    clips.push(swim);
    clips.push(captured);
    clips.push(enemy_swim);
    clips.push(portal_closed);
    clips.push(portal_opened);
    let table = ClipTable { clips };
    assert forall|i: int| 0 <= i < table.clips@.len() implies clip_wf(#[trigger] table.clips@[i]) by {
    }
    (
        table,
        PlayerClips { idle: 0, walk: 1, jump: 2, swim: 3, captured: 4 },
        PortalClips { closed: 6, opened: 7 },
        5,
    )
}

/// The world's complete behavior state. Positions live with the physics step;
/// the world keeps only what behavior owns.
pub struct World {
    pub clips: ClipTable,
    pub player_clips: PlayerClips,
    pub portal_clips: PortalClips,
    pub enemy_clip: usize,
    pub player_id: u64,
    pub portal_id: u64,
    pub player: Player,
    pub enemies: Vec<EnemySlot>,
    pub treasures: Vec<TreasureSlot>,
    pub portal: Portal,
    pub markers: MarkerQueue,
    /// The clock reading of the last tick, milliseconds since level start.
    pub time_ms: u64,
}

impl World {
    /// Entity ids are assigned by the spawn planner and never reused: the
    /// player, then the portal, then the enemies, then the treasures.
    pub open spec fn ids_assigned(self) -> bool {
        &&& self.player_id == 1
        &&& self.portal_id == 2
        &&& self.enemies@.len() + self.treasures@.len() <= 0x2000_0000
        &&& forall|k: int| 0 <= k < self.enemies@.len() ==> (#[trigger] self.enemies@[k].id) == 3 + k
        &&& forall|k: int|
            0 <= k < self.treasures@.len() ==> (#[trigger] self.treasures@[k].id) == 3
                + self.enemies@.len() + k
    }

    pub open spec fn wf(self) -> bool {
        &&& self.clips.wf()
        &&& self.player_clips.distinct()
        &&& self.player_clips.idle < self.clips.clips@.len()
        &&& self.player_clips.walk < self.clips.clips@.len()
        &&& self.player_clips.jump < self.clips.clips@.len()
        &&& self.player_clips.swim < self.clips.clips@.len()
        &&& self.player_clips.captured < self.clips.clips@.len()
        &&& self.portal_clips.closed < self.clips.clips@.len()
        &&& self.portal_clips.opened < self.clips.clips@.len()
        &&& self.enemy_clip < self.clips.clips@.len()
        &&& self.player.playback.wf(self.clips)
        &&& forall|k: int|
            0 <= k < self.enemies@.len() ==> (#[trigger] self.enemies@[k]).enemy.wf()
                && self.enemies@[k].playback.wf(self.clips)
        &&& self.portal.playback.wf(self.clips)
        &&& self.ids_assigned()
        &&& self.markers.time_wf(self.time_ms)
    }

    /// How many treasures are still uncollected.
    pub fn live_treasures(&self) -> (n: usize)
        ensures
            n as int == live_count(self.treasures@),
    {
        count_live(&self.treasures)
    }
}

/// The world bootstrap: from a validated level, the initial entity states —
/// the player idle and grounded at its spawn, every enemy roaming leftward,
/// every treasure alive at its tile, the portal closed, no markers, the clock
/// at zero.
pub fn spawn_world(level: &LevelMap) -> (w: World)
    requires
        level.coords_bounded(),
        level.enemies@.len() <= 0x1000_0000,
        level.treasures@.len() <= 0x1000_0000,
    ensures
        w.wf(),
        standard_table(w.clips),
        w.player_clips == standard_player_clips(),
        w.portal_clips == standard_portal_clips(),
        w.enemy_clip == standard_enemy_clip(),
        !w.player.captured,
        w.player.grounded,
        w.player.cooldown,
        w.player.gravity_enabled,
        w.player.direction == crate::player::Direction::Left,
        !w.player.flip_x,
        w.player.velocity == Vec2Fx::spec_zero(),
        w.player.playback == (Playback { clip: w.player_clips.idle, elapsed_ms: 0u64 }),
        w.enemies@.len() == level.enemies@.len(),
        forall|k: int|
            0 <= k < w.enemies@.len() ==> (#[trigger] w.enemies@[k]).enemy.state
                == EnemyState::Roaming && w.enemies@[k].enemy.velocity
                == crate::enemy::patrol_velocity(false) && w.enemies@[k].playback == (Playback {
                clip: w.enemy_clip,
                elapsed_ms: 0u64,
            }),
        w.treasures@.len() == level.treasures@.len(),
        forall|k: int|
            0 <= k < w.treasures@.len() ==> (#[trigger] w.treasures@[k]).alive
                && w.treasures@[k].position.x == crate::level::TILE_SIZE_MILLI
                * level.treasures@[k].0 as int && w.treasures@[k].position.y
                == crate::level::TILE_SIZE_MILLI * level.treasures@[k].1 as int,
        !w.portal.opened,
        w.portal.playback == (Playback { clip: w.portal_clips.closed, elapsed_ms: 0u64 }),
        w.markers.active is None,
        !w.markers.terminal_active,
        w.time_ms == 0,
        live_count(w.treasures@) == w.treasures@.len(),
{
    let (clips, player_clips, portal_clips, enemy_clip) = standard_clips();
    let player = Player::spawn(&player_clips);
    proof {
        lemma_fresh_playback_wf(clips, player_clips.idle);
        lemma_fresh_playback_wf(clips, enemy_clip);
        lemma_fresh_playback_wf(clips, portal_clips.closed);
    }
    let mut enemies: Vec<EnemySlot> = Vec::new();
    let mut k: usize = 0;
    while k < level.enemies.len()
        invariant
            level.enemies@.len() <= 0x1000_0000,
            k <= level.enemies@.len(),
            enemies@.len() == k,
            clips.wf(),
            enemy_clip < clips.clips@.len(),
            forall|m: int|
                0 <= m < k ==> (#[trigger] enemies@[m]).id == 3 + m && enemies@[m].enemy.state
                    == EnemyState::Roaming && enemies@[m].enemy.velocity
                    == crate::enemy::patrol_velocity(false) && enemies@[m].enemy.wf()
                    && enemies@[m].playback == (Playback { clip: enemy_clip, elapsed_ms: 0u64 })
                    && enemies@[m].playback.wf(clips),
        decreases level.enemies@.len() - k,
    {
        proof {
            lemma_fresh_playback_wf(clips, enemy_clip);
        }
        enemies.push(
            EnemySlot {
                id: 3 + (k as u64),
                enemy: Enemy::spawn(),
                playback: Playback::new(enemy_clip),
            },
        );
        k = k + 1;
    }
    let mut treasures: Vec<TreasureSlot> = Vec::new();
    let mut k: usize = 0;
    while k < level.treasures.len()
        invariant
            level.coords_bounded(),
            level.enemies@.len() <= 0x1000_0000,
            level.treasures@.len() <= 0x1000_0000,
            enemies@.len() == level.enemies@.len(),
            k <= level.treasures@.len(),
            treasures@.len() == k,
            forall|m: int|
                0 <= m < k ==> (#[trigger] treasures@[m]).id == 3 + enemies@.len() + m
                    && treasures@[m].alive && treasures@[m].position.x
                    == crate::level::TILE_SIZE_MILLI * level.treasures@[m].0 as int
                    && treasures@[m].position.y == crate::level::TILE_SIZE_MILLI
                    * level.treasures@[m].1 as int,
        decreases level.treasures@.len() - k,
    {
        let t = level.treasures[k];
        let pos = tile_to_world(t);
        treasures.push(
            TreasureSlot { id: 3 + (enemies.len() as u64) + (k as u64), position: pos, alive: true },
        );
        k = k + 1;
    }
    proof {
        crate::treasure::lemma_all_alive_count(treasures@, 0);
    }
    World {
        clips,
        player_clips,
        portal_clips,
        enemy_clip,
        player_id: 1,
        portal_id: 2,
        player,
        enemies,
        treasures,
        portal: Portal::spawn(&portal_clips),
        markers: MarkerQueue::new(),
        time_ms: 0,
    }
}

/// The state an enemy reaches, and whether it has captured the player on the
/// way, once the events from index `i` on have been routed to it in order.
pub open spec fn enemy_contacts_from(
    e: Enemy,
    captured: bool,
    events: Seq<ContactPair>,
    i: int,
    self_id: u64,
    player_id: u64,
) -> (Enemy, bool)
    decreases events.len() - i,
{
    if i < 0 || i >= events.len() {
        (e, captured)
    } else {
        let st = crate::enemy::spec_contact_step(e, events[i], self_id, player_id);
        enemy_contacts_from(st.0, captured || st.1, events, i + 1, self_id, player_id)
    }
}

/// What a whole batch does to an enemy.
pub open spec fn enemy_after_contacts(
    e: Enemy,
    events: Seq<ContactPair>,
    self_id: u64,
    player_id: u64,
) -> (Enemy, bool) {
    enemy_contacts_from(e, false, events, 0, self_id, player_id)
}

/// Load a level text (given as its lines, top line first) and bootstrap the
/// world from it: the one entry point a shell needs at level start. Returns
/// the world exactly when the text is a usable grid; a malformed text is a
/// fatal load-time failure the caller reports.
pub fn load_world(lines: &Vec<Vec<char>>) -> (r: Option<World>)
    ensures
        r is Some <==> crate::level::lines_usable(crate::level::views_of(lines@)),
        r is Some ==> {
            let w = r->0;
            &&& w.wf()
            &&& standard_table(w.clips)
            &&& w.player_clips == standard_player_clips()
            &&& w.portal_clips == standard_portal_clips()
            &&& w.enemy_clip == standard_enemy_clip()
            &&& !w.player.captured
            &&& w.player.grounded
            &&& !w.portal.opened
            &&& w.markers.active is None
            &&& !w.markers.terminal_active
            &&& w.time_ms == 0
            &&& live_count(w.treasures@) == w.treasures@.len()
        },
{
    match crate::level::parse_level(lines) {
        None => None,
        Some(level) => {
            proof {
                let vls = crate::level::views_of(lines@);
                crate::level::lemma_level_coords_bounded(vls, level);
                crate::level::lemma_coords_upto_len(
                    vls,
                    'E',
                    crate::level::MAP_HEIGHT as int * crate::level::MAP_WIDTH as int,
                );
                crate::level::lemma_coords_upto_len(
                    vls,
                    'T',
                    crate::level::MAP_HEIGHT as int * crate::level::MAP_WIDTH as int,
                );
            }
            Some(spawn_world(&level))
        },
    }
}

/// Route this tick's contact batch to the enemies. Every event is tested
/// against every enemy, in both handle orders; a roaming enemy bounces, an
/// attacking enemy that touches the player captures it: the enemy starts
/// Eating, the player is frozen in its terminal pose, and the full-screen
/// terminal marker is raised.
fn route_enemy_contacts(
    enemies: &mut Vec<EnemySlot>,
    player: &mut Player,
    markers: &mut MarkerQueue,
    events: &Vec<ContactPair>,
    player_id: u64,
    player_clips: &PlayerClips,
) -> (captured_now: bool)
    requires
        forall|k: int| 0 <= k < old(enemies)@.len() ==> (#[trigger] old(enemies)@[k]).enemy.wf(),
    ensures
        final(enemies)@.len() == old(enemies)@.len(),
        forall|k: int|
            0 <= k < old(enemies)@.len() ==> (#[trigger] final(enemies)@[k]).id
                == old(enemies)@[k].id && final(enemies)@[k].playback == old(enemies)@[k].playback
                && final(enemies)@[k].enemy.wf(),
        forall|k: int|
            0 <= k < old(enemies)@.len() && old(enemies)@[k].enemy.state == EnemyState::Eating ==> (
            #[trigger] final(enemies)@[k]).enemy.state == EnemyState::Eating,
        forall|k: int|
            0 <= k < old(enemies)@.len() ==> (#[trigger] final(enemies)@[k]).enemy
                == enemy_after_contacts(
                old(enemies)@[k].enemy,
                events@,
                old(enemies)@[k].id,
                player_id,
            ).0,
        captured_now == (exists|k: int|
            0 <= k < old(enemies)@.len() && (#[trigger] enemy_after_contacts(
                old(enemies)@[k].enemy,
                events@,
                old(enemies)@[k].id,
                player_id,
            )).1),
        captured_now ==> *final(player) == (Player {
            gravity_enabled: false,
            captured: true,
            playback: Playback { clip: player_clips.captured, elapsed_ms: 0 },
            ..*old(player)
        }),
        !captured_now ==> *final(player) == *old(player),
        final(markers).active == old(markers).active,
        final(markers).terminal_active == (old(markers).terminal_active || captured_now),
{
    let ghost enemies0 = enemies@;
    let ghost player0 = *player;
    let ghost markers0 = *markers;
    let ghost mut flags: Seq<bool> = Seq::new(enemies0.len(), |m: int| false);
    let mut captured_now = false;
    let mut e: usize = 0;
    while e < events.len()
        invariant
            forall|k: int| 0 <= k < enemies0.len() ==> (#[trigger] enemies0[k]).enemy.wf(),
            e <= events@.len(),
            enemies@.len() == enemies0.len(),
            flags.len() == enemies0.len(),
            forall|k: int|
                0 <= k < enemies0.len() ==> (#[trigger] enemies@[k]).id == enemies0[k].id
                    && enemies@[k].playback == enemies0[k].playback && enemies@[k].enemy.wf(),
            forall|k: int|
                0 <= k < enemies0.len() && enemies0[k].enemy.state == EnemyState::Eating ==> (
                #[trigger] enemies@[k]).enemy.state == EnemyState::Eating,
            forall|k: int|
                0 <= k < enemies0.len() ==> #[trigger] enemy_contacts_from(
                    enemies@[k].enemy,
                    flags[k],
                    events@,
                    e as int,
                    enemies0[k].id,
                    player_id,
                ) == enemy_after_contacts(enemies0[k].enemy, events@, enemies0[k].id, player_id),
            captured_now == (exists|k: int| 0 <= k < enemies0.len() && #[trigger] flags[k]),
            captured_now ==> *player == (Player {
                gravity_enabled: false,
                captured: true,
                playback: Playback { clip: player_clips.captured, elapsed_ms: 0 },
                ..player0
            }),
            !captured_now ==> *player == player0,
            markers.active == markers0.active,
            markers.terminal_active == (markers0.terminal_active || captured_now),
        decreases events@.len() - e,
    {
        let ev = events[e];
        let mut k: usize = 0;
        while k < enemies.len()
            invariant
                forall|m: int| 0 <= m < enemies0.len() ==> (#[trigger] enemies0[m]).enemy.wf(),
                e < events@.len(),
                ev == events@[e as int],
                k <= enemies@.len(),
                enemies@.len() == enemies0.len(),
                flags.len() == enemies0.len(),
                forall|m: int|
                    0 <= m < enemies0.len() ==> (#[trigger] enemies@[m]).id == enemies0[m].id
                        && enemies@[m].playback == enemies0[m].playback && enemies@[m].enemy.wf(),
                forall|m: int|
                    0 <= m < enemies0.len() && enemies0[m].enemy.state == EnemyState::Eating ==> (
                    #[trigger] enemies@[m]).enemy.state == EnemyState::Eating,
                forall|m: int|
                    0 <= m < k ==> #[trigger] enemy_contacts_from(
                        enemies@[m].enemy,
                        flags[m],
                        events@,
                        e as int + 1,
                        enemies0[m].id,
                        player_id,
                    ) == enemy_after_contacts(enemies0[m].enemy, events@, enemies0[m].id, player_id),
                forall|m: int|
                    k <= m < enemies0.len() ==> #[trigger] enemy_contacts_from(
                        enemies@[m].enemy,
                        flags[m],
                        events@,
                        e as int,
                        enemies0[m].id,
                        player_id,
                    ) == enemy_after_contacts(enemies0[m].enemy, events@, enemies0[m].id, player_id),
                captured_now == (exists|m: int| 0 <= m < enemies0.len() && #[trigger] flags[m]),
                captured_now ==> *player == (Player {
                    gravity_enabled: false,
                    captured: true,
                    playback: Playback { clip: player_clips.captured, elapsed_ms: 0 },
                    ..player0
                }),
                !captured_now ==> *player == player0,
                markers.active == markers0.active,
                    markers.terminal_active == (markers0.terminal_active || captured_now),
            decreases enemies@.len() - k,
        {
            let slot = enemies[k];
            let ghost old_flag = flags[k as int];
            let mut en = slot.enemy;
            let captured = en.on_contact(&ev, slot.id, player_id);
            enemies.set(k, EnemySlot { enemy: en, ..slot });
            proof {
                let ghost total = enemy_after_contacts(
                    enemies0[k as int].enemy,
                    events@,
                    enemies0[k as int].id,
                    player_id,
                );
                assert(enemy_contacts_from(
                    slot.enemy,
                    old_flag,
                    events@,
                    e as int,
                    enemies0[k as int].id,
                    player_id,
                ) == total);
                if captured {
                    flags = flags.update(k as int, true);
                }
                assert(flags[k as int] == (old_flag || captured));
                assert(enemy_contacts_from(
                    en,
                    old_flag || captured,
                    events@,
                    e as int + 1,
                    enemies0[k as int].id,
                    player_id,
                ) == total);
            }
            if captured {
                player.capture(player_clips);
                markers.spawn_terminal();
                captured_now = true;
            }
            k = k + 1;
        }
        e = e + 1;
    }
    proof {
        assert forall|k: int| 0 <= k < enemies0.len() implies (#[trigger] enemies@[k]).enemy
            == enemy_after_contacts(enemies0[k].enemy, events@, enemies0[k].id, player_id).0 by {
            assert(enemy_contacts_from(
                enemies@[k].enemy,
                flags[k],
                events@,
                e as int,
                enemies0[k].id,
                player_id,
            ) == (enemies@[k].enemy, flags[k]));
        }
        assert forall|k: int| 0 <= k < enemies0.len() implies #[trigger] flags[k]
            == enemy_after_contacts(enemies0[k].enemy, events@, enemies0[k].id, player_id).1 by {
            assert(enemy_contacts_from(
                enemies@[k].enemy,
                flags[k],
                events@,
                e as int,
                enemies0[k].id,
                player_id,
            ) == (enemies@[k].enemy, flags[k]));
        }
        if captured_now {
            let k0 = choose|k: int| 0 <= k < enemies0.len() && #[trigger] flags[k];
            assert(enemy_after_contacts(
                enemies0[k0].enemy,
                events@,
                enemies0[k0].id,
                player_id,
            ).1);
        } else {
            assert forall|k: int|
                0 <= k < enemies0.len() implies !(#[trigger] enemy_after_contacts(
                enemies0[k].enemy,
                events@,
                enemies0[k].id,
                player_id,
            )).1 by {
                assert(!flags[k]);
            }
        }
    }
    captured_now
}

/// Collect treasures against this tick's contact batch. Each event that links
/// the player with a live treasure despawns that treasure; a collection then
/// either pops a message marker — decided by a draw under the configured
/// frequency, and only while no ordinary marker is alive — with a noise cue,
/// or requests the plain coin cue. Events whose handles resolve to no live
/// treasure are silently ignored.
fn collect_treasures(
    treasures: &mut Vec<TreasureSlot>,
    markers: &mut MarkerQueue,
    cues: &mut Vec<CueKind>,
    events: &Vec<ContactPair>,
    player_id: u64,
    now_ms: u64,
)
    requires
        forall|k: int, m: int|
            0 <= k < old(treasures)@.len() && 0 <= m < old(treasures)@.len() && k != m ==> (
            #[trigger] old(treasures)@[k]).id != (#[trigger] old(treasures)@[m]).id,
        forall|k: int|
            0 <= k < old(treasures)@.len() ==> (#[trigger] old(treasures)@[k]).id != player_id,
        old(markers).time_wf(now_ms),
    ensures
        final(treasures)@.len() == old(treasures)@.len(),
        forall|k: int|
            0 <= k < old(treasures)@.len() ==> (#[trigger] final(treasures)@[k]).id
                == old(treasures)@[k].id && final(treasures)@[k].position
                == old(treasures)@[k].position,
        forall|k: int|
            0 <= k < old(treasures)@.len() && (#[trigger] final(treasures)@[k]).alive ==> old(treasures)@[k].alive,
        forall|k: int|
            0 <= k < old(treasures)@.len() && (#[trigger] final(treasures)@[k]).alive ==> (forall|ei: int|
                0 <= ei < events@.len() ==> !spec_links(
                    #[trigger] events@[ei],
                    player_id,
                    final(treasures)@[k].id,
                )),
        forall|k: int|
            0 <= k < old(treasures)@.len() && old(treasures)@[k].alive && !(#[trigger] final(treasures)@[k]).alive ==> (exists|ei: int|
                0 <= ei < events@.len() && spec_links(
                    #[trigger] events@[ei],
                    player_id,
                    old(treasures)@[k].id,
                )),
        old(markers).active is Some ==> final(markers).active == old(markers).active,
        final(markers).terminal_active == old(markers).terminal_active,
        final(markers).time_wf(now_ms),
        final(cues)@.len() >= old(cues)@.len(),
        final(cues)@.subrange(0, old(cues)@.len() as int) == old(cues)@,
        forall|i: int|
            old(cues)@.len() <= i < final(cues)@.len() ==> (#[trigger] final(cues)@[i])
                == CueKind::Coin || final(cues)@[i] == CueKind::Noise,
        // Exactly one cue per collected treasure.
        final(cues)@.len() == old(cues)@.len() + crate::treasure::collected_count(
            old(treasures)@,
            final(treasures)@,
        ),
        // A marker slot filled by this pass was spawned here and now, with a
        // message from the fixed set and the standard display duration.
        final(markers).active is Some ==> final(markers).active == old(markers).active || (final(
            markers
        ).active->0.spawned_at_ms == now_ms && final(markers).active->0.duration_ms
            == MARKER_DURATION_MS && final(markers).active->0.message < MESSAGE_COUNT),
        old(markers).active is None && final(markers).active is Some
            ==> crate::treasure::collected_count(old(treasures)@, final(treasures)@) >= 1,
        // The noise cue is requested exactly when the pass spawned a marker —
        // once — and every other collection requests the coin cue.
        (exists|i: int|
            old(cues)@.len() <= i < final(cues)@.len() && (#[trigger] final(cues)@[i])
                == CueKind::Noise) == (old(markers).active is None && final(markers).active
            is Some),
        forall|i: int, j: int|
            old(cues)@.len() <= i < final(cues)@.len() && old(cues)@.len() <= j < final(cues)@.len() && (#[trigger] final(cues)@[i]) == CueKind::Noise && (#[trigger] final(cues)@[j]) == CueKind::Noise ==> i == j,
{
    let ghost treasures0 = treasures@;
    let ghost markers0 = *markers;
    let ghost cues0 = cues@;
    proof {
        crate::treasure::lemma_collected_none(treasures0, treasures0, 0);
    }
    let mut e: usize = 0;
    while e < events.len()
        invariant
            forall|k: int, m: int|
                0 <= k < treasures0.len() && 0 <= m < treasures0.len() && k != m ==> (
                #[trigger] treasures0[k]).id != (#[trigger] treasures0[m]).id,
            forall|k: int| 0 <= k < treasures0.len() ==> (#[trigger] treasures0[k]).id != player_id,
            e <= events@.len(),
            treasures@.len() == treasures0.len(),
            forall|k: int|
                0 <= k < treasures0.len() ==> (#[trigger] treasures@[k]).id == treasures0[k].id
                    && treasures@[k].position == treasures0[k].position,
            forall|k: int|
                0 <= k < treasures0.len() && (#[trigger] treasures@[k]).alive ==> treasures0[k].alive,
            forall|k: int|
                0 <= k < treasures0.len() && (#[trigger] treasures@[k]).alive ==> (forall|ei: int|
                    0 <= ei < e ==> !spec_links(
                        #[trigger] events@[ei],
                        player_id,
                        treasures@[k].id,
                    )),
            forall|k: int|
                0 <= k < treasures0.len() && treasures0[k].alive && !(#[trigger] treasures@[k]).alive
                    ==> (exists|ei: int|
                    0 <= ei < e && spec_links(
                        #[trigger] events@[ei],
                        player_id,
                        treasures0[k].id,
                    )),
            markers0.active is Some ==> markers.active == markers0.active,
            markers.terminal_active == markers0.terminal_active,
            markers.time_wf(now_ms),
            cues@.len() >= cues0.len(),
            cues@.subrange(0, cues0.len() as int) == cues0,
            forall|i: int|
                cues0.len() <= i < cues@.len() ==> (#[trigger] cues@[i]) == CueKind::Coin
                    || cues@[i] == CueKind::Noise,
            cues@.len() == cues0.len() + crate::treasure::collected_count(treasures0, treasures@),
            markers.active is Some ==> markers.active == markers0.active || (
            markers.active->0.spawned_at_ms == now_ms && markers.active->0.duration_ms
                == MARKER_DURATION_MS && markers.active->0.message < MESSAGE_COUNT),
            markers0.active is None && markers.active is Some
                ==> crate::treasure::collected_count(treasures0, treasures@) >= 1,
            (exists|i: int|
                cues0.len() <= i < cues@.len() && (#[trigger] cues@[i]) == CueKind::Noise) == (
            markers0.active is None && markers.active is Some),
            forall|i: int, j: int|
                cues0.len() <= i < cues@.len() && cues0.len() <= j < cues@.len() && (
                #[trigger] cues@[i]) == CueKind::Noise && (#[trigger] cues@[j]) == CueKind::Noise
                    ==> i == j,
        decreases events@.len() - e,
    {
        let ghost cues_pre = cues@;
        let ghost markers_pre = *markers;
        let ev = events[e];
        let found = find_linked_treasure(treasures, &ev, player_id);
        match found {
            Some(t) => {
                let ghost treasures_pre = treasures@;
                let slot = treasures[t];
                treasures.set(t, TreasureSlot { alive: false, ..slot });
                proof {
                    crate::treasure::lemma_collected_step(
                        treasures0,
                        treasures_pre,
                        treasures@,
                        t as int,
                        0,
                    );
                    assert forall|k: int|
                        0 <= k < treasures0.len() && (#[trigger] treasures@[k]).alive implies (
                    forall|ei: int|
                        0 <= ei < e + 1 ==> !spec_links(
                            #[trigger] events@[ei],
                            player_id,
                            treasures@[k].id,
                        )) by {
                        assert forall|ei: int|
                            0 <= ei < e + 1 implies !spec_links(
                            #[trigger] events@[ei],
                            player_id,
                            treasures@[k].id,
                        ) by {
                            if ei == e {
                                if spec_links(events@[ei], player_id, treasures@[k].id) {
                                    assert(!treasures@[t as int].alive);
                                    assert(k != t as int);
                                    assert(treasures0[k].id != treasures0[t as int].id);
                                    assert(spec_links(ev, player_id, treasures0[t as int].id));
                                    lemma_link_unique(
                                        events@[ei],
                                        player_id,
                                        treasures@[k].id,
                                        treasures0[t as int].id,
                                    );
                                }
                            }
                        }
                    }
                }
                let marker_alive = match markers.active {
                    Some(_) => true,
                    None => false,
                };
                if !marker_alive {
                    let draw = draw_percent();
                    if message_spawn_decision(marker_alive, draw) {
                        let idx = draw_message_index();
                        markers.try_spawn(idx, MARKER_DURATION_MS, now_ms);
                        cues.push(CueKind::Noise);
                    } else {
                        cues.push(CueKind::Coin);
                    }
                } else {
                    cues.push(CueKind::Coin);
                }
                proof {
                    assert(cues@.subrange(0, cues0.len() as int) =~= cues0);
                    assert(cues@.len() == cues_pre.len() + 1);
                    assert(forall|i: int| 0 <= i < cues_pre.len() ==> cues@[i] == cues_pre[i]);
                    if markers_pre.active is None && markers.active is Some {
                        // The spawn happened in this iteration, with the one
                        // noise cue; no earlier iteration can have spawned.
                        assert(markers0.active is None);
                        assert(cues@[cues_pre.len() as int] == CueKind::Noise);
                        assert forall|i: int|
                            cues0.len() <= i < cues_pre.len() implies (#[trigger] cues@[i])
                            != CueKind::Noise by {
                            assert(cues@[i] == cues_pre[i]);
                        }
                    } else {
                        // No spawn in this iteration: the coin cue was pushed
                        // and the marker slot is untouched.
                        assert(markers.active == markers_pre.active);
                        assert(cues@[cues_pre.len() as int] == CueKind::Coin);
                        assert forall|i: int|
                            cues0.len() <= i < cues@.len() && (#[trigger] cues@[i])
                                == CueKind::Noise implies cues0.len() <= i < cues_pre.len()
                                && cues_pre[i] == CueKind::Noise by {
                            assert(i != cues_pre.len());
                        }
                    }
                }
            },
            None => {
                proof {
                    assert forall|k: int|
                        0 <= k < treasures0.len() && (#[trigger] treasures@[k]).alive implies !spec_links(
                        events@[e as int],
                        player_id,
                        treasures@[k].id,
                    ) by {
                        assert(!linked_alive_at(treasures@, ev, player_id, k));
                    }
                }
            },
        }
        e = e + 1;
    }
}

/// An unordered pair links the player with at most one id other than the
/// player's own.
proof fn lemma_link_unique(p: ContactPair, player_id: u64, id1: u64, id2: u64)
    requires
        spec_links(p, player_id, id1),
        spec_links(p, player_id, id2),
        id1 != player_id,
        id2 != player_id,
    ensures
        id1 == id2,
{
}

/// The player a landing pass leaves behind: settled on the ground with the
/// idle clip reset when some event in the batch lands it, untouched otherwise.
pub open spec fn player_after_landings(
    p: Player,
    events: Seq<ContactPair>,
    player_id: u64,
    clips: PlayerClips,
) -> Player {
    if exists|ei: int| 0 <= ei < events.len() && crate::player::lands(p, #[trigger] events[ei], player_id) {
        Player {
            cooldown: false,
            grounded: true,
            playback: Playback { clip: clips.idle, elapsed_ms: 0 },
            ..p
        }
    } else {
        p
    }
}

/// Route this tick's contact batch to the player: the first event that lands
/// the player settles it on the ground with the idle clip reset; after that,
/// or for a player that is airborne-and-rising, captured, or untouched, the
/// remaining events change nothing.
fn route_player_landings(
    player: &mut Player,
    events: &Vec<ContactPair>,
    player_id: u64,
    player_clips: &PlayerClips,
)
    ensures
        *final(player) == player_after_landings(*old(player), events@, player_id, *player_clips),
{
    let ghost player0 = *player;
    let ghost landed = Player {
        cooldown: false,
        grounded: true,
        playback: Playback { clip: player_clips.idle, elapsed_ms: 0 },
        ..player0
    };
    let mut e: usize = 0;
    while e < events.len()
        invariant
            e <= events@.len(),
            (exists|ei: int|
                0 <= ei < e && crate::player::lands(player0, #[trigger] events@[ei], player_id))
                ==> *player == landed,
            !(exists|ei: int|
                0 <= ei < e && crate::player::lands(player0, #[trigger] events@[ei], player_id))
                ==> *player == player0,
            landed == (Player {
                cooldown: false,
                grounded: true,
                playback: Playback { clip: player_clips.idle, elapsed_ms: 0 },
                ..player0
            }),
        decreases events@.len() - e,
    {
        let ev = events[e];
        player.on_contact(&ev, player_id, player_clips);
        proof {
            if crate::player::lands(player0, events@[e as int], player_id) {
                assert(*player == landed);
            }
        }
        e = e + 1;
    }
}

/// The per-tick distance-driven update of every enemy against the player's
/// fresh position.
fn update_enemy_distances(
    enemies: &mut Vec<EnemySlot>,
    enemy_positions: &Vec<Vec2Fx>,
    player_pos: Vec2Fx,
)
    requires
        enemy_positions@.len() == old(enemies)@.len(),
        forall|k: int|
            0 <= k < enemy_positions@.len() ==> (#[trigger] enemy_positions@[k]).in_coord_range(),
        player_pos.in_coord_range(),
        forall|k: int| 0 <= k < old(enemies)@.len() ==> (#[trigger] old(enemies)@[k]).enemy.wf(),
    ensures
        final(enemies)@.len() == old(enemies)@.len(),
        forall|k: int|
            0 <= k < old(enemies)@.len() ==> (#[trigger] final(enemies)@[k]).id
                == old(enemies)@[k].id && final(enemies)@[k].playback == old(enemies)@[k].playback
                && final(enemies)@[k].enemy.wf(),
        forall|k: int|
            0 <= k < old(enemies)@.len() ==> (#[trigger] final(enemies)@[k]).enemy
                == crate::enemy::spec_distance_step(
                old(enemies)@[k].enemy,
                enemy_positions@[k],
                player_pos,
            ),
        forall|k: int|
            0 <= k < old(enemies)@.len() && old(enemies)@[k].enemy.state == EnemyState::Eating ==> (
            #[trigger] final(enemies)@[k]).enemy.state == EnemyState::Eating,
{
    let ghost enemies0 = enemies@;
    let mut k: usize = 0;
    while k < enemies.len()
        invariant
            enemy_positions@.len() == enemies0.len(),
            forall|m: int|
                0 <= m < enemy_positions@.len() ==> (
                #[trigger] enemy_positions@[m]).in_coord_range(),
            player_pos.in_coord_range(),
            forall|m: int| 0 <= m < enemies0.len() ==> (#[trigger] enemies0[m]).enemy.wf(),
            k <= enemies@.len(),
            enemies@.len() == enemies0.len(),
            forall|m: int|
                0 <= m < enemies0.len() ==> (#[trigger] enemies@[m]).id == enemies0[m].id
                    && enemies@[m].playback == enemies0[m].playback && enemies@[m].enemy.wf(),
            forall|m: int|
                0 <= m < k ==> (#[trigger] enemies@[m]).enemy == crate::enemy::spec_distance_step(
                    enemies0[m].enemy,
                    enemy_positions@[m],
                    player_pos,
                ),
            forall|m: int|
                k <= m < enemies0.len() ==> (#[trigger] enemies@[m]).enemy == enemies0[m].enemy,
            forall|m: int|
                0 <= m < enemies0.len() && enemies0[m].enemy.state == EnemyState::Eating ==> (
                #[trigger] enemies@[m]).enemy.state == EnemyState::Eating,
        decreases enemies@.len() - k,
    {
        let slot = enemies[k];
        let mut en = slot.enemy;
        en.update_by_distance(enemy_positions[k], player_pos);
        enemies.set(k, EnemySlot { enemy: en, ..slot });
        k = k + 1;
    }
}

/// Advance every enemy's animation cursor by this tick's delta.
fn advance_enemy_playbacks(enemies: &mut Vec<EnemySlot>, table: &ClipTable, delta_ms: u64)
    requires
        table.wf(),
        delta_ms <= 0x1_0000_0000,
        forall|k: int|
            0 <= k < old(enemies)@.len() ==> (#[trigger] old(enemies)@[k]).playback.wf(*table),
    ensures
        final(enemies)@.len() == old(enemies)@.len(),
        forall|k: int|
            0 <= k < old(enemies)@.len() ==> (#[trigger] final(enemies)@[k]).id
                == old(enemies)@[k].id && final(enemies)@[k].enemy == old(enemies)@[k].enemy
                && final(enemies)@[k].playback.wf(*table),
        forall|k: int|
            0 <= k < old(enemies)@.len() ==> (#[trigger] final(enemies)@[k]).playback
                == crate::anim::spec_advanced(old(enemies)@[k].playback, *table, delta_ms as int),
{
    let ghost enemies0 = enemies@;
    let mut k: usize = 0;
    while k < enemies.len()
        invariant
            table.wf(),
            delta_ms <= 0x1_0000_0000,
            forall|m: int| 0 <= m < enemies0.len() ==> (#[trigger] enemies0[m]).playback.wf(*table),
            k <= enemies@.len(),
            enemies@.len() == enemies0.len(),
            forall|m: int|
                0 <= m < enemies0.len() ==> (#[trigger] enemies@[m]).id == enemies0[m].id
                    && enemies@[m].enemy == enemies0[m].enemy && enemies@[m].playback.wf(*table),
            forall|m: int|
                0 <= m < k ==> (#[trigger] enemies@[m]).playback == crate::anim::spec_advanced(
                    enemies0[m].playback,
                    *table,
                    delta_ms as int,
                ),
            forall|m: int|
                k <= m < enemies0.len() ==> (#[trigger] enemies@[m]).playback
                    == enemies0[m].playback,
        decreases enemies@.len() - k,
    {
        let slot = enemies[k];
        let mut pb = slot.playback;
        pb.advance(table, delta_ms);
        enemies.set(k, EnemySlot { playback: pb, ..slot });
        k = k + 1;
    }
}

/// The player a whole tick leaves behind: the physics-fresh velocity written
/// in, the terminal capture applied if an enemy captured this tick, the
/// landing pass, the input-driven movement phase, and the cursor advancement,
/// in that order.
pub open spec fn spec_player_tick(
    p: Player,
    captured_now: bool,
    player_vel: Vec2Fx,
    events: Seq<ContactPair>,
    input: InputSnapshot,
    player_id: u64,
    clips: PlayerClips,
    table: ClipTable,
    delta: int,
) -> Player {
    let p1 = Player { velocity: player_vel, ..p };
    let p2 = if captured_now {
        Player {
            gravity_enabled: false,
            captured: true,
            playback: Playback { clip: clips.captured, elapsed_ms: 0 },
            ..p1
        }
    } else {
        p1
    };
    let p3 = player_after_landings(p2, events, player_id, clips);
    let p4 = crate::player::spec_movement(p3, input, clips).0;
    Player { playback: crate::anim::spec_advanced(p4.playback, table, delta), ..p4 }
}

impl World {
    /// One simulation tick. The caller (the engine shell) samples the input
    /// and the physics-fresh player position/velocity and enemy positions,
    /// collects this tick's contact-begin events, and passes the wall-clock
    /// reading and the elapsed delta. The fixed order inside the tick: events
    /// are routed to the enemies (captures), the player (landings) and the
    /// treasure collector; the input-driven player movement and the
    /// distance-driven enemy updates run; the portal re-evaluates the
    /// live-treasure count; every animation cursor advances; stale markers
    /// expire. The batch is consumed within the tick: nothing of it persists.
    #[verifier::rlimit(80)]
    pub fn tick(
        &mut self,
        input: InputSnapshot,
        player_pos: Vec2Fx,
        player_vel: Vec2Fx,
        enemy_positions: &Vec<Vec2Fx>,
        events: &Vec<ContactPair>,
        delta_ms: u64,
        now_ms: u64,
    ) -> (fx: TickEffects)
        requires
            old(self).wf(),
            enemy_positions@.len() == old(self).enemies@.len(),
            forall|k: int|
                0 <= k < enemy_positions@.len() ==> (
                #[trigger] enemy_positions@[k]).in_coord_range(),
            player_pos.in_coord_range(),
            delta_ms <= 0x1_0000_0000,
            now_ms >= old(self).time_ms,
        ensures
            final(self).wf(),
            final(self).time_ms == now_ms,
            final(self).clips == old(self).clips,
            final(self).player_clips == old(self).player_clips,
            final(self).portal_clips == old(self).portal_clips,
            final(self).enemy_clip == old(self).enemy_clip,
            final(self).player_id == old(self).player_id,
            final(self).portal_id == old(self).portal_id,
            final(self).enemies@.len() == old(self).enemies@.len(),
            forall|k: int|
                0 <= k < old(self).enemies@.len() ==> (#[trigger] final(self).enemies@[k]).id == old(self).enemies@[k].id,
            final(self).treasures@.len() == old(self).treasures@.len(),
            forall|k: int|
                0 <= k < old(self).treasures@.len() ==> (#[trigger] final(self).treasures@[k]).id
                    == old(self).treasures@[k].id && final(self).treasures@[k].position == old(self).treasures@[k].position,
            // Eating is absorbing across whole ticks.
            forall|k: int|
                0 <= k < old(self).enemies@.len() && old(self).enemies@[k].enemy.state
                    == EnemyState::Eating ==> (#[trigger] final(self).enemies@[k]).enemy.state
                    == EnemyState::Eating,
            // Each enemy's whole-tick behavior: the contact fold, then the
            // distance step against its fresh position; its cursor advanced by
            // the tick's delta.
            forall|k: int|
                0 <= k < old(self).enemies@.len() ==> (#[trigger] final(self).enemies@[k]).enemy
                    == crate::enemy::spec_distance_step(
                    enemy_after_contacts(
                        old(self).enemies@[k].enemy,
                        events@,
                        old(self).enemies@[k].id,
                        old(self).player_id,
                    ).0,
                    enemy_positions@[k],
                    player_pos,
                ),
            forall|k: int|
                0 <= k < old(self).enemies@.len() ==> (#[trigger] final(self).enemies@[k]).playback
                    == crate::anim::spec_advanced(
                    old(self).enemies@[k].playback,
                    old(self).clips,
                    delta_ms as int,
                ),
            fx.captured_now == (exists|k: int|
                0 <= k < old(self).enemies@.len() && (#[trigger] enemy_after_contacts(
                    old(self).enemies@[k].enemy,
                    events@,
                    old(self).enemies@[k].id,
                    old(self).player_id,
                )).1),
            // The player's whole-tick behavior.
            final(self).player == spec_player_tick(
                old(self).player,
                fx.captured_now,
                player_vel,
                events@,
                input,
                old(self).player_id,
                old(self).player_clips,
                old(self).clips,
                delta_ms as int,
            ),
            // The portal's clip: reassigned with a reset on the transition
            // tick, then advanced like every other cursor.
            final(self).portal.playback == crate::anim::spec_advanced(
                if !old(self).portal.opened && live_count(final(self).treasures@) == 0 {
                    Playback { clip: old(self).portal_clips.opened, elapsed_ms: 0 }
                } else {
                    old(self).portal.playback
                },
                old(self).clips,
                delta_ms as int,
            ),
            // Cue requests for the two one-shot transitions.
            fx.cues@.contains(CueKind::Crunch) == fx.captured_now,
            fx.cues@.contains(CueKind::PortalOpen) == (!old(self).portal.opened && live_count(
                final(self).treasures@,
            ) == 0),
            // Exactly one collection cue (coin or noise) per treasure
            // collected this tick, between the two one-shots.
            fx.cues@.len() == (if fx.captured_now {
                1int
            } else {
                0int
            }) + crate::treasure::collected_count(old(self).treasures@, final(self).treasures@) + (
            if !old(self).portal.opened && live_count(final(self).treasures@) == 0 {
                1int
            } else {
                0int
            }),
            fx.captured_now ==> fx.cues@[0] == CueKind::Crunch,
            (!old(self).portal.opened && live_count(final(self).treasures@) == 0) ==> fx.cues@[
                fx.cues@.len() - 1
            ] == CueKind::PortalOpen,
            forall|i: int|
                (if fx.captured_now {
                    1int
                } else {
                    0int
                }) <= i < fx.cues@.len() - (if !old(self).portal.opened && live_count(
                    final(self).treasures@,
                ) == 0 {
                    1int
                } else {
                    0int
                }) ==> (#[trigger] fx.cues@[i]) == CueKind::Coin || fx.cues@[i] == CueKind::Noise,
            // The noise cue is requested exactly when this tick spawned an
            // ordinary marker; a collection under the single-marker guard
            // requests the coin cue instead.
            (exists|i: int|
                0 <= i < fx.cues@.len() && (#[trigger] fx.cues@[i]) == CueKind::Noise) == (old(self).markers.active is None && final(self).markers.active is Some),
            forall|i: int, j: int|
                0 <= i < fx.cues@.len() && 0 <= j < fx.cues@.len() && (#[trigger] fx.cues@[i])
                    == CueKind::Noise && (#[trigger] fx.cues@[j]) == CueKind::Noise ==> i == j,
            // A marker spawned this tick carries this tick's timestamp, the
            // standard display duration, and a message from the fixed set.
            old(self).markers.active is None && final(self).markers.active is Some ==> final(self).markers.active->0.spawned_at_ms == now_ms && final(self).markers.active->0.duration_ms
                == MARKER_DURATION_MS && final(self).markers.active->0.message < MESSAGE_COUNT,
            // The terminal game-over marker is raised exactly by a capture.
            final(self).markers.terminal_active == (old(self).markers.terminal_active
                || fx.captured_now),
            // The portal never re-closes, and this tick's evaluation reads the
            // post-collection live-treasure count.
            old(self).portal.opened ==> final(self).portal.opened,
            final(self).portal.opened == (old(self).portal.opened || live_count(
                final(self).treasures@,
            ) == 0),
            // Capture is terminal.
            old(self).player.captured ==> final(self).player.captured,
            fx.captured_now ==> final(self).player.captured,
            // Treasures are only ever despawned, never revived.
            forall|k: int|
                0 <= k < old(self).treasures@.len() && (#[trigger] final(self).treasures@[k]).alive
                    ==> old(self).treasures@[k].alive,
            // A marker alive at tick start is never replaced: it is kept
            // until the first tick on which its age exceeds its duration,
            // and despawned exactly then.
            old(self).markers.active is Some ==> final(self).markers.active == (if now_ms - old(self).markers.active->0.spawned_at_ms > old(self).markers.active->0.duration_ms {
                None::<crate::marker::TransientMarker>
            } else {
                old(self).markers.active
            }),
    {
        let mut cues: Vec<CueKind> = Vec::new();
        // Fresh physics signals.
        self.player.velocity = player_vel;
        // Contact routing: enemies (bounces, captures).
        let captured_now = route_enemy_contacts(
            &mut self.enemies,
            &mut self.player,
            &mut self.markers,
            events,
            self.player_id,
            &self.player_clips,
        );
        if captured_now {
            cues.push(CueKind::Crunch);
        }
        let ghost en_routed = self.enemies@;
        let ghost p2 = self.player;
        let ghost cues_crunch = cues@;
        proof {
            lemma_fresh_playback_wf(self.clips, self.player_clips.captured);
            assert(cues_crunch =~= if captured_now {
                seq![CueKind::Crunch]
            } else {
                Seq::<CueKind>::empty()
            });
        }
        // Contact routing: player landings.
        route_player_landings(&mut self.player, events, self.player_id, &self.player_clips);
        let ghost p3 = self.player;
        proof {
            lemma_fresh_playback_wf(self.clips, self.player_clips.idle);
        }
        // Contact routing: treasure collection.
        proof {
            assert forall|k: int, m: int|
                0 <= k < self.treasures@.len() && 0 <= m < self.treasures@.len() && k != m implies (
            #[trigger] self.treasures@[k]).id != (#[trigger] self.treasures@[m]).id by {
                assert(self.treasures@[k].id == 3 + self.enemies@.len() + k);
                assert(self.treasures@[m].id == 3 + self.enemies@.len() + m);
            }
            assert forall|k: int|
                0 <= k < self.treasures@.len() implies (#[trigger] self.treasures@[k]).id
                != self.player_id by {
                assert(self.treasures@[k].id == 3 + self.enemies@.len() + k);
            }
            assert(self.markers.time_wf(now_ms));
        }
        let ghost markers_entering_collect = self.markers;
        collect_treasures(
            &mut self.treasures,
            &mut self.markers,
            &mut cues,
            events,
            self.player_id,
            now_ms,
        );
        let ghost markers_collected = self.markers;
        // Input-driven player movement.
        let ghost before_move = self.player;
        let player_dx = self.player.movement_tick(input, &self.player_clips);
        proof {
            crate::player::lemma_movement_playback_cases(before_move, input, self.player_clips);
            crate::player::lemma_movement_preserves_flags(before_move, input, self.player_clips);
            lemma_fresh_playback_wf(self.clips, self.player_clips.idle);
            lemma_fresh_playback_wf(self.clips, self.player_clips.walk);
            lemma_fresh_playback_wf(self.clips, self.player_clips.jump);
            lemma_fresh_playback_wf(self.clips, self.player_clips.swim);
            assert(self.player.playback.wf(self.clips));
        }
        let ghost p4 = self.player;
        // Distance-driven enemy updates.
        update_enemy_distances(&mut self.enemies, enemy_positions, player_pos);
        let ghost en_dist = self.enemies@;
        // Portal evaluation against the post-collection treasure count.
        let live = count_live(&self.treasures);
        let ghost cues_collect = cues@;
        let portal_cue = self.portal.update(live, &self.portal_clips);
        if portal_cue {
            cues.push(CueKind::PortalOpen);
        }
        let ghost portal_pb_mid = self.portal.playback;
        proof {
            lemma_fresh_playback_wf(self.clips, self.portal_clips.opened);
        }
        // Animation advancement, after all clip reassignments of this tick.
        self.player.playback.advance(&self.clips, delta_ms);
        advance_enemy_playbacks(&mut self.enemies, &self.clips, delta_ms);
        let mut portal_pb = self.portal.playback;
        portal_pb.advance(&self.clips, delta_ms);
        self.portal.playback = portal_pb;
        // Marker expiry, last.
        self.markers.expire_tick(now_ms);
        self.time_ms = now_ms;
        proof {
            // The player composed across the tick's phases.
            assert(self.player == (Player {
                playback: crate::anim::spec_advanced(p4.playback, self.clips, delta_ms as int),
                ..p4
            }));
            assert(self.player == spec_player_tick(
                old(self).player,
                captured_now,
                player_vel,
                events@,
                input,
                old(self).player_id,
                old(self).player_clips,
                old(self).clips,
                delta_ms as int,
            ));
            // Each enemy composed across the tick's phases.
            assert forall|k: int| 0 <= k < old(self).enemies@.len() implies (
            #[trigger] self.enemies@[k]).enemy == crate::enemy::spec_distance_step(
                enemy_after_contacts(
                    old(self).enemies@[k].enemy,
                    events@,
                    old(self).enemies@[k].id,
                    old(self).player_id,
                ).0,
                enemy_positions@[k],
                player_pos,
            ) by {
                assert(en_routed[k].enemy == enemy_after_contacts(
                    old(self).enemies@[k].enemy,
                    events@,
                    old(self).enemies@[k].id,
                    old(self).player_id,
                ).0);
                assert(en_dist[k].enemy == crate::enemy::spec_distance_step(
                    en_routed[k].enemy,
                    enemy_positions@[k],
                    player_pos,
                ));
                assert(self.enemies@[k].enemy == en_dist[k].enemy);
            }
            // The cue batch holds the capture crunch exactly when a capture
            // happened, and the portal hum exactly on the transition tick.
            let all = cues@;
            assert(all.subrange(0, cues_collect.len() as int) =~= cues_collect);
            assert(cues_collect.subrange(0, cues_crunch.len() as int) =~= cues_crunch);
            if captured_now {
                assert(cues_collect.len() >= 1);
                assert(cues_collect.subrange(0, cues_crunch.len() as int)[0] == cues_collect[0]);
                assert(all.subrange(0, cues_collect.len() as int)[0] == all[0]);
                assert(all[0] == CueKind::Crunch);
                assert(all.contains(CueKind::Crunch));
            } else {
                assert forall|i: int| 0 <= i < all.len() implies all[i] != CueKind::Crunch by {
                    if i < cues_collect.len() {
                        assert(all[i] == cues_collect[i]);
                        assert(cues_collect[i] == CueKind::Coin || cues_collect[i]
                            == CueKind::Noise);
                    } else {
                        assert(all[i] == CueKind::PortalOpen);
                    }
                }
                assert(!all.contains(CueKind::Crunch));
            }
            if portal_cue {
                assert(all[all.len() - 1] == CueKind::PortalOpen);
                assert(all.contains(CueKind::PortalOpen));
            } else {
                assert forall|i: int| 0 <= i < all.len() implies all[i] != CueKind::PortalOpen by {
                    if i < cues_crunch.len() {
                        assert(all[i] == CueKind::Crunch);
                    } else {
                        assert(all[i] == cues_collect[i]);
                        assert(cues_collect[i] == CueKind::Coin || cues_collect[i]
                            == CueKind::Noise);
                    }
                }
                assert(!all.contains(CueKind::PortalOpen));
            }
            // One collection cue per collected treasure, between the one-shots.
            let crunch_len: int = if captured_now {
                1int
            } else {
                0int
            };
            let portal_len: int = if portal_cue {
                1int
            } else {
                0int
            };
            assert(cues_crunch.len() == crunch_len);
            assert(all.len() == cues_collect.len() + portal_len);
            assert forall|i: int|
                crunch_len <= i < all.len() - portal_len implies (#[trigger] all[i])
                == CueKind::Coin || all[i] == CueKind::Noise by {
                assert(all[i] == cues_collect[i]);
            }
            // The markers chain: route keeps the slot, the collection pass may
            // fill an empty one, expiry applies the age rule last.
            assert(markers_entering_collect.active == old(self).markers.active);
            if markers_entering_collect.active is None && markers_collected.active is Some {
                assert(markers_collected.active->0.spawned_at_ms == now_ms);
                assert(markers_collected.active->0.duration_ms == MARKER_DURATION_MS);
                assert(self.markers.active == markers_collected.active);
            }
            assert((old(self).markers.active is None && self.markers.active is Some) == (
            markers_entering_collect.active is None && markers_collected.active is Some));
            // A noise cue anywhere in the batch is one of the collection pass's
            // cues, and the pass requests it exactly on a marker spawn.
            assert((exists|i: int|
                0 <= i < all.len() && (#[trigger] all[i]) == CueKind::Noise) == (old(self).markers.active is None && self.markers.active is Some)) by {
                if exists|i: int| 0 <= i < all.len() && (#[trigger] all[i]) == CueKind::Noise {
                    let i0 = choose|i: int|
                        0 <= i < all.len() && (#[trigger] all[i]) == CueKind::Noise;
                    assert(crunch_len <= i0 < cues_collect.len()) by {
                        if captured_now && i0 == 0 {
                            assert(all[0] == CueKind::Crunch);
                        }
                        if portal_cue && i0 == all.len() - 1 {
                            assert(all[all.len() - 1] == CueKind::PortalOpen);
                        }
                    }
                    assert(cues_collect[i0] == all[i0]);
                }
                if markers_entering_collect.active is None && markers_collected.active is Some {
                    let i1 = choose|i: int|
                        cues_crunch.len() <= i < cues_collect.len() && (#[trigger] cues_collect[i])
                            == CueKind::Noise;
                    assert(all[i1] == cues_collect[i1]);
                    assert(all[i1] == CueKind::Noise);
                }
            }
        }
        TickEffects { player_dx, captured_now, cues }
    }
}

} // verus!
