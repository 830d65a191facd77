//! The player state machine: jumping with a cooldown that debounces a held
//! key, horizontal walking with sprite facing, and the idle / walk / jump /
//! swim animation selection, driven by a per-tick snapshot of held keys and
//! the physics-fresh velocity. Capture by an enemy is terminal: the captured
//! clip is assigned once and movement stops responding.
use vstd::prelude::*;
use crate::anim::Playback;
use crate::events::ContactPair;
use crate::events::spec_involves;
use crate::geom::Vec2Fx;

verus! {

/// Upward impulse a jump gives the vertical velocity (milli-units/second).
pub const JUMP_IMPULSE_MILLI: i64 = 50_000;

/// Horizontal nudge requested per tick while a direction key is held
/// (milli-units).
pub const MOVE_STEP_MILLI: i64 = 200;

/// Vertical velocities below this threshold (milli-units/second) count as
/// "no longer rising": past the jump apex, or settled for a landing.
pub const VEL_EPS_MILLI: i64 = 1;

/// Which way the player sprite faces.
#[derive(Clone, Copy, PartialEq, Eq, Structural, Debug)]
pub enum Direction {
    Left,
    Right,
}

/// The keys held during this tick, sampled once before the state machines run.
#[derive(Clone, Copy, PartialEq, Eq, Structural, Debug)]
pub struct InputSnapshot {
    pub jump_held: bool,
    pub left_held: bool,
    pub right_held: bool,
}

/// The clip-table indices of the player's clips, fixed at spawn and passed as
/// read-only context.
#[derive(Clone, Copy, PartialEq, Eq, Structural, Debug)]
pub struct PlayerClips {
    pub idle: usize,
    pub walk: usize,
    pub jump: usize,
    pub swim: usize,
    pub captured: usize,
}

impl PlayerClips {
    /// The five clips are distinct states of the machine.
    pub open spec fn distinct(self) -> bool {
        &&& self.idle != self.walk
        &&& self.idle != self.jump
        &&& self.idle != self.swim
        &&& self.idle != self.captured
        &&& self.walk != self.jump
        &&& self.walk != self.swim
        &&& self.walk != self.captured
        &&& self.jump != self.swim
        &&& self.jump != self.captured
        &&& self.swim != self.captured
    }
}

/// The single player entity's behavior state.
#[derive(Clone, Copy, PartialEq, Eq, Structural, Debug)]
pub struct Player {
    pub direction: Direction,
    pub flip_x: bool,
    /// True from the tick a jump fires until the jump key is released (or the
    /// player lands): one press, one jump.
    pub cooldown: bool,
    pub grounded: bool,
    /// Cleared when an enemy captures the player, so gravity stops pulling the
    /// terminal pose.
    pub gravity_enabled: bool,
    /// Set once by capture; no later movement or landing changes the player.
    pub captured: bool,
    /// The velocity as the behavior core last saw or wrote it; refreshed from
    /// the physics step each tick before the machine runs.
    pub velocity: Vec2Fx,
    pub playback: Playback,
}

/// The player's current movement intent. It is derived from the assigned
/// clip — the machine keeps no second copy that could drift from what is
/// shown — with the terminal captured pose on top.
#[derive(Clone, Copy, PartialEq, Eq, Structural, Debug)]
pub enum PlayerIntent {
    Idle,
    Walking,
    Jumping,
    FallingSwimming,
    Captured,
}

pub open spec fn spec_intent(p: Player, clips: PlayerClips) -> PlayerIntent {
    if p.captured {
        PlayerIntent::Captured
    } else if p.playback.clip == clips.walk {
        PlayerIntent::Walking
    } else if p.playback.clip == clips.jump {
        PlayerIntent::Jumping
    } else if p.playback.clip == clips.swim {
        PlayerIntent::FallingSwimming
    } else {
        PlayerIntent::Idle
    }
}

/// A jump fires on a held jump key only when the player is grounded and the
/// key was released since the last jump.
pub open spec fn jump_fires(p: Player, input: InputSnapshot) -> bool {
    input.jump_held && !p.cooldown && p.grounded
}

/// The player after the jump phase of a tick.
pub open spec fn spec_after_jump(p: Player, input: InputSnapshot, clips: PlayerClips) -> Player {
    if input.jump_held {
        if jump_fires(p, input) {
            Player {
                velocity: Vec2Fx { x: 0, y: JUMP_IMPULSE_MILLI },
                cooldown: true,
                grounded: false,
                playback: Playback { clip: clips.jump, elapsed_ms: 0 },
                ..p
            }
        } else {
            p
        }
    } else {
        Player { cooldown: false, ..p }
    }
}

/// Animation choice while a direction key is held: leave idle for walk; past
/// the apex of a jump, or walking into a fall, switch to swim. Every switch
/// is a reassignment and therefore resets the cursor.
pub open spec fn spec_move_anim(pb: Playback, grounded: bool, vy: int, clips: PlayerClips) -> Playback {
    if pb.clip == clips.idle {
        Playback { clip: clips.walk, elapsed_ms: 0 }
    } else if !grounded && pb.clip == clips.jump && vy < VEL_EPS_MILLI {
        Playback { clip: clips.swim, elapsed_ms: 0 }
    } else if pb.clip == clips.walk && vy < -VEL_EPS_MILLI {
        Playback { clip: clips.swim, elapsed_ms: 0 }
    } else {
        pb
    }
}

/// Animation choice with no direction key held: a grounded player returns to
/// idle; an airborne one past the apex of a jump switches to swim.
pub open spec fn spec_idle_anim(pb: Playback, grounded: bool, vy: int, clips: PlayerClips) -> Playback {
    if pb.clip != clips.idle && grounded {
        Playback { clip: clips.idle, elapsed_ms: 0 }
    } else if pb.clip == clips.jump && vy < VEL_EPS_MILLI {
        Playback { clip: clips.swim, elapsed_ms: 0 }
    } else {
        pb
    }
}

/// The whole movement tick: the jump phase, then the horizontal phase (the
/// left key wins over the right one), as a function from the old player and
/// the input to the new player and the requested horizontal nudge.
pub open spec fn spec_movement(p: Player, input: InputSnapshot, clips: PlayerClips) -> (Player, int) {
    if p.captured {
        (p, 0)
    } else {
        let q = spec_after_jump(p, input, clips);
        if input.left_held {
            let r = Player {
                direction: Direction::Left,
                flip_x: if q.direction != Direction::Left {
                    false
                } else {
                    q.flip_x
                },
                playback: spec_move_anim(q.playback, q.grounded, q.velocity.y as int, clips),
                ..q
            };
            (r, -MOVE_STEP_MILLI as int)
        } else if input.right_held {
            let r = Player {
                direction: Direction::Right,
                flip_x: if q.direction != Direction::Right {
                    true
                } else {
                    q.flip_x
                },
                playback: spec_move_anim(q.playback, q.grounded, q.velocity.y as int, clips),
                ..q
            };
            (r, MOVE_STEP_MILLI as int)
        } else {
            let r = Player {
                playback: spec_idle_anim(q.playback, q.grounded, q.velocity.y as int, clips),
                ..q
            };
            (r, 0)
        }
    }
}

/// A movement tick leaves the playback either untouched or freshly assigned
/// (cursor zeroed) to one of the four movement clips.
pub proof fn lemma_movement_playback_cases(p: Player, input: InputSnapshot, clips: PlayerClips)
    ensures
        ({
            let q = spec_movement(p, input, clips).0.playback;
            q == p.playback || (q.elapsed_ms == 0 && (q.clip == clips.idle || q.clip == clips.walk
                || q.clip == clips.jump || q.clip == clips.swim))
        }),
{
}

/// A movement tick never touches the capture flag or the gravity response:
/// those change only through the capture path.
pub proof fn lemma_movement_preserves_flags(p: Player, input: InputSnapshot, clips: PlayerClips)
    ensures
        spec_movement(p, input, clips).0.captured == p.captured,
        spec_movement(p, input, clips).0.gravity_enabled == p.gravity_enabled,
{
}

/// A landing: a contact that touches the player while it is airborne and no
/// longer rising.
pub open spec fn lands(p: Player, pair: ContactPair, self_id: u64) -> bool {
    spec_involves(pair, self_id) && p.velocity.y < VEL_EPS_MILLI && !p.grounded && !p.captured
}

impl Player {
    /// The player as the spawn planner creates it: idle on the ground, facing
    /// left, with the jump disarmed until the key is first released.
    pub fn spawn(clips: &PlayerClips) -> (p: Player)
        ensures
            p.direction == Direction::Left,
            !p.flip_x,
            p.cooldown,
            p.grounded,
            p.gravity_enabled,
            !p.captured,
            p.velocity == Vec2Fx::spec_zero(),
            p.playback == (Playback { clip: clips.idle, elapsed_ms: 0u64 }),
    {
        Player {
            direction: Direction::Left,
            flip_x: false,
            cooldown: true,
            grounded: true,
            gravity_enabled: true,
            captured: false,
            velocity: Vec2Fx::zero(),
            playback: Playback::new(clips.idle),
        }
    }

    /// One movement tick, to be run after the velocity field has been
    /// refreshed from the physics step. Returns the horizontal nudge the
    /// caller should apply to the player's position.
    pub fn movement_tick(&mut self, input: InputSnapshot, clips: &PlayerClips) -> (dx: i64)
        requires
            clips.distinct(),
        ensures
            *final(self) == spec_movement(*old(self), input, *clips).0,
            dx as int == spec_movement(*old(self), input, *clips).1,
            !old(self).captured && jump_fires(*old(self), input) ==> {
                &&& final(self).velocity == (Vec2Fx { x: 0, y: JUMP_IMPULSE_MILLI })
                &&& !final(self).grounded
                &&& final(self).cooldown
                &&& final(self).playback.clip == clips.jump
                &&& final(self).playback.elapsed_ms == 0
            },
            !old(self).captured && !input.jump_held ==> !final(self).cooldown,
            old(self).captured ==> *final(self) == *old(self) && dx == 0,
            final(self).playback.clip != old(self).playback.clip ==> final(
                self
            ).playback.elapsed_ms == 0,
    {
        if self.captured {
            return 0;
        }
        if input.jump_held {
            if !self.cooldown && self.grounded {
                self.velocity = Vec2Fx { x: 0, y: JUMP_IMPULSE_MILLI };
                self.cooldown = true;
                self.grounded = false;
                self.playback.assign(clips.jump);
            }
        } else {
            self.cooldown = false;
        }
        if input.left_held {
            if self.direction != Direction::Left {
                self.flip_x = false;
            }
            self.direction = Direction::Left;
            self.apply_move_anim(clips);
            -MOVE_STEP_MILLI
        } else if input.right_held {
            if self.direction != Direction::Right {
                self.flip_x = true;
            }
            self.direction = Direction::Right;
            self.apply_move_anim(clips);
            MOVE_STEP_MILLI
        } else {
            if self.playback.clip != clips.idle && self.grounded {
                self.playback.assign(clips.idle);
            } else if self.playback.clip == clips.jump && self.velocity.y < VEL_EPS_MILLI {
                self.playback.assign(clips.swim);
            }
            0
        }
    }

    /// The movement intent the player currently shows.
    pub fn intent(&self, clips: &PlayerClips) -> (r: PlayerIntent)
        ensures
            r == spec_intent(*self, *clips),
    {
        if self.captured {
            PlayerIntent::Captured
        } else if self.playback.clip == clips.walk {
            PlayerIntent::Walking
        } else if self.playback.clip == clips.jump {
            PlayerIntent::Jumping
        } else if self.playback.clip == clips.swim {
            PlayerIntent::FallingSwimming
        } else {
            PlayerIntent::Idle
        }
    }

    /// The walking-phase animation switch.
    fn apply_move_anim(&mut self, clips: &PlayerClips)
        ensures
            *final(self) == (Player {
                playback: spec_move_anim(
                    old(self).playback,
                    old(self).grounded,
                    old(self).velocity.y as int,
                    *clips,
                ),
                ..*old(self)
            }),
    {
        if self.playback.clip == clips.idle {
            self.playback.assign(clips.walk);
        } else if !self.grounded && self.playback.clip == clips.jump && self.velocity.y
            < VEL_EPS_MILLI {
            self.playback.assign(clips.swim);
        } else if self.playback.clip == clips.walk && self.velocity.y < -VEL_EPS_MILLI {
            self.playback.assign(clips.swim);
        }
    }

    /// Landing, driven by a routed contact event: a touched, airborne,
    /// no-longer-rising player settles on the ground, the jump re-arms, and
    /// the idle clip is assigned with a reset. Any other contact leaves the
    /// player unchanged.
    pub fn on_contact(&mut self, pair: &ContactPair, self_id: u64, clips: &PlayerClips)
        ensures
            lands(*old(self), *pair, self_id) ==> *final(self) == (Player {
                cooldown: false,
                grounded: true,
                playback: Playback { clip: clips.idle, elapsed_ms: 0 },
                ..*old(self)
            }),
            !lands(*old(self), *pair, self_id) ==> *final(self) == *old(self),
    {
        if pair.involves(self_id) && self.velocity.y < VEL_EPS_MILLI && !self.grounded
            && !self.captured {
            self.cooldown = false;
            self.grounded = true;
            self.playback.assign(clips.idle);
        }
    }

    /// The terminal capture: gravity response off, the captured clip assigned
    /// with a reset, and the machine frozen for the rest of the session.
    pub fn capture(&mut self, clips: &PlayerClips)
        ensures
            *final(self) == (Player {
                gravity_enabled: false,
                captured: true,
                playback: Playback { clip: clips.captured, elapsed_ms: 0 },
                ..*old(self)
            }),
    {
        self.gravity_enabled = false;
        self.captured = true;
        self.playback.assign(clips.captured);
    }
}

} // verus!
