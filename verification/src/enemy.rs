//! The enemy state machine. Each enemy is Roaming (constant-magnitude
//! horizontal patrol, bouncing off whatever it touches), Attacking (pursuing
//! the player at a fixed speed once the player is inside its attack radius),
//! or Eating (a sink state entered by touching the player while Attacking;
//! after that the enemy never changes again).
use vstd::prelude::*;
use crate::events::ContactPair;
use crate::events::spec_involves;
use crate::events::spec_links;
use crate::geom::Vec2Fx;
use crate::geom::dist2;
use crate::geom::pursuit_velocity;
use crate::geom::spec_pursuit;

verus! {

/// Patrol and pursuit speed, in milli-units per second.
pub const ENEMY_SPEED_MILLI: i64 = 30_000;

/// Pursuit begins when the player is at most this far away (milli-units).
pub const ENEMY_ATTACK_RADIUS_MILLI: i64 = 80_000;

#[derive(Clone, Copy, PartialEq, Eq, Structural, Debug)]
pub enum EnemyState {
    Roaming,
    Attacking,
    Eating,
}

/// One enemy's behavior state: its transition state, the velocity it asks the
/// physics step to apply, and whether its sprite is mirrored.
#[derive(Clone, Copy, PartialEq, Eq, Structural, Debug)]
pub struct Enemy {
    pub state: EnemyState,
    pub velocity: Vec2Fx,
    pub flip_x: bool,
}

/// Whether the player is inside the attack radius (compared on squared
/// distances; the boundary itself counts as inside).
pub open spec fn within_attack_radius(epos: Vec2Fx, ppos: Vec2Fx) -> bool {
    dist2(epos, ppos) <= ENEMY_ATTACK_RADIUS_MILLI * ENEMY_ATTACK_RADIUS_MILLI
}

/// The state an enemy moves to when this tick's distance signal is read.
pub open spec fn next_state_by_distance(s: EnemyState, within: bool) -> EnemyState {
    match s {
        EnemyState::Roaming => if within {
            EnemyState::Attacking
        } else {
            EnemyState::Roaming
        },
        EnemyState::Attacking => if within {
            EnemyState::Attacking
        } else {
            EnemyState::Roaming
        },
        EnemyState::Eating => EnemyState::Eating,
    }
}

/// The state an enemy moves to when a contact-begin event is routed to it;
/// `links_player` says whether the event pairs this enemy with the player.
pub open spec fn next_state_by_contact(s: EnemyState, links_player: bool) -> EnemyState {
    match s {
        EnemyState::Attacking => if links_player {
            EnemyState::Eating
        } else {
            EnemyState::Attacking
        },
        _ => s,
    }
}

/// The constant-magnitude horizontal patrol velocity, keeping the given
/// horizontal direction.
pub open spec fn patrol_velocity(rightward: bool) -> Vec2Fx {
    if rightward {
        Vec2Fx { x: ENEMY_SPEED_MILLI, y: 0 }
    } else {
        Vec2Fx { x: (-ENEMY_SPEED_MILLI) as i64, y: 0 }
    }
}

/// What one tick's distance signal does to an enemy: the transition function
/// `update_by_distance` implements.
pub open spec fn spec_distance_step(e: Enemy, epos: Vec2Fx, ppos: Vec2Fx) -> Enemy {
    let within = within_attack_radius(epos, ppos);
    let s1 = next_state_by_distance(e.state, within);
    let e1 = if e.state == EnemyState::Attacking && !within {
        Enemy { state: s1, velocity: patrol_velocity(e.velocity.x > 0), ..e }
    } else {
        Enemy { state: s1, ..e }
    };
    if s1 == EnemyState::Attacking {
        let v = spec_pursuit(epos, ppos, ENEMY_SPEED_MILLI as int);
        Enemy { velocity: v, flip_x: v.x > 0, ..e1 }
    } else {
        e1
    }
}

/// What one contact-begin event does to an enemy, and whether it captures the
/// player: the transition function `on_contact` implements.
pub open spec fn spec_contact_step(e: Enemy, pair: ContactPair, self_id: u64, player_id: u64) -> (
    Enemy,
    bool,
) {
    match e.state {
        EnemyState::Roaming => if spec_involves(pair, self_id) {
            (
                Enemy {
                    velocity: Vec2Fx { x: (-e.velocity.x) as i64, y: e.velocity.y },
                    flip_x: !e.flip_x,
                    ..e
                },
                false,
            )
        } else {
            (e, false)
        },
        EnemyState::Attacking => if spec_links(pair, self_id, player_id) {
            (Enemy { state: EnemyState::Eating, velocity: Vec2Fx::spec_zero(), ..e }, true)
        } else {
            (e, false)
        },
        EnemyState::Eating => (e, false),
    }
}

impl Enemy {
    /// The velocity an enemy may carry: never faster than its fixed speed in
    /// either component.
    pub open spec fn wf(self) -> bool {
        -ENEMY_SPEED_MILLI <= self.velocity.x <= ENEMY_SPEED_MILLI && -ENEMY_SPEED_MILLI
            <= self.velocity.y <= ENEMY_SPEED_MILLI
    }

    /// A freshly spawned enemy: patrolling leftward.
    pub fn spawn() -> (e: Enemy)
        ensures
            e.state == EnemyState::Roaming,
            e.velocity == patrol_velocity(false),
            !e.flip_x,
            e.wf(),
    {
        Enemy { state: EnemyState::Roaming, velocity: Vec2Fx { x: -ENEMY_SPEED_MILLI, y: 0 }, flip_x: false }
    }

    /// Per-tick distance-driven update. Roaming becomes Attacking when the
    /// player is within the attack radius; Attacking falls back to Roaming
    /// (resuming horizontal patrol in the direction it was already moving)
    /// when the player escapes it; Eating ignores the signal. An attacking
    /// enemy's velocity is recomputed every tick as the pursuit vector toward
    /// the player, and its sprite faces the way it moves.
    pub fn update_by_distance(&mut self, epos: Vec2Fx, ppos: Vec2Fx)
        requires
            old(self).wf(),
            epos.in_coord_range(),
            ppos.in_coord_range(),
        ensures
            *final(self) == spec_distance_step(*old(self), epos, ppos),
            final(self).state == next_state_by_distance(
                old(self).state,
                within_attack_radius(epos, ppos),
            ),
            old(self).state == EnemyState::Eating ==> *final(self) == *old(self),
            old(self).state == EnemyState::Roaming && !within_attack_radius(epos, ppos) ==> *final(self) == *old(self),
            old(self).state == EnemyState::Attacking && !within_attack_radius(epos, ppos) ==> {
                &&& final(self).velocity == patrol_velocity(old(self).velocity.x > 0)
                &&& final(self).flip_x == old(self).flip_x
            },
            final(self).state == EnemyState::Attacking ==> {
                &&& final(self).velocity == spec_pursuit(epos, ppos, ENEMY_SPEED_MILLI as int)
                &&& final(self).flip_x == (final(self).velocity.x > 0)
            },
            final(self).wf(),
    {
        let dx = ppos.x - epos.x;
        let dy = ppos.y - epos.y;
        assert(dx * dx + dy * dy <= 32_000_000_000_000) by (nonlinear_arith)
            requires -4_000_000 <= dx <= 4_000_000, -4_000_000 <= dy <= 4_000_000;
        assert(dx * dx >= 0 && dy * dy >= 0) by (nonlinear_arith);
        let within = dx * dx + dy * dy <= ENEMY_ATTACK_RADIUS_MILLI * ENEMY_ATTACK_RADIUS_MILLI;
        match self.state {
            EnemyState::Roaming => {
                if within {
                    self.state = EnemyState::Attacking;
                }
            },
            EnemyState::Attacking => {
                if !within {
                    self.state = EnemyState::Roaming;
                    self.velocity = if self.velocity.x > 0 {
                        Vec2Fx { x: ENEMY_SPEED_MILLI, y: 0 }
                    } else {
                        Vec2Fx { x: -ENEMY_SPEED_MILLI, y: 0 }
                    };
                }
            },
            EnemyState::Eating => {},
        }
        if self.state == EnemyState::Attacking {
            let v = pursuit_velocity(epos, ppos, ENEMY_SPEED_MILLI);
            self.velocity = v;
            self.flip_x = v.x > 0;
        }
    }

    /// Contact-driven update. A roaming enemy that touches anything reverses
    /// its horizontal velocity and mirrors its sprite; an attacking enemy that
    /// touches the player (in either handle order) stops and starts Eating —
    /// the capture, reported in the result so the caller can run the terminal
    /// player sequence. An eating enemy ignores contacts.
    pub fn on_contact(&mut self, pair: &ContactPair, self_id: u64, player_id: u64) -> (captured:
        bool)
        requires
            old(self).wf(),
        ensures
            *final(self) == spec_contact_step(*old(self), *pair, self_id, player_id).0,
            captured == spec_contact_step(*old(self), *pair, self_id, player_id).1,
            captured == (old(self).state == EnemyState::Attacking && spec_links(
                *pair,
                self_id,
                player_id,
            )),
            final(self).state == next_state_by_contact(
                old(self).state,
                spec_links(*pair, self_id, player_id),
            ),
            old(self).state == EnemyState::Roaming && spec_involves(*pair, self_id) ==> {
                &&& final(self).velocity.x == -old(self).velocity.x
                &&& final(self).velocity.y == old(self).velocity.y
                &&& final(self).flip_x == !old(self).flip_x
            },
            old(self).state == EnemyState::Roaming && !spec_involves(*pair, self_id) ==> *final(self) == *old(self),
            captured ==> final(self).velocity == Vec2Fx::spec_zero() && final(self).flip_x == old(
                self,
            ).flip_x,
            old(self).state == EnemyState::Attacking && !spec_links(*pair, self_id, player_id)
                ==> *final(self) == *old(self),
            old(self).state == EnemyState::Eating ==> *final(self) == *old(self),
            final(self).wf(),
    {
        match self.state {
            EnemyState::Roaming => {
                if pair.involves(self_id) {
                    self.velocity = Vec2Fx { x: -self.velocity.x, y: self.velocity.y };
                    self.flip_x = !self.flip_x;
                }
                false
            },
            EnemyState::Attacking => {
                if pair.links(self_id, player_id) {
                    self.state = EnemyState::Eating;
                    self.velocity = Vec2Fx::zero();
                    true
                } else {
                    false
                }
            },
            EnemyState::Eating => false,
        }
    }
}

/// Laws of the enemy machine: Roaming moves to Attacking exactly when the
/// distance signal puts the player inside the attack radius; Attacking falls
/// back to Roaming exactly when it does not; Eating is entered only from
/// Attacking, and only by a contact that links the enemy with the player; and
/// Eating is absorbing under both kinds of update.
pub proof fn lemma_enemy_transition_rules(s: EnemyState, within: bool, links_player: bool)
    ensures
        next_state_by_distance(s, within) == EnemyState::Attacking && s != EnemyState::Attacking
            ==> s == EnemyState::Roaming && within,
        s == EnemyState::Roaming ==> (next_state_by_distance(s, within) == EnemyState::Attacking
            <==> within),
        s == EnemyState::Attacking ==> (next_state_by_distance(s, within) == EnemyState::Roaming
            <==> !within),
        next_state_by_contact(s, links_player) == EnemyState::Eating && s != EnemyState::Eating
            ==> s == EnemyState::Attacking && links_player,
        next_state_by_distance(s, within) != EnemyState::Eating || s == EnemyState::Eating,
        s == EnemyState::Eating ==> next_state_by_distance(s, within) == EnemyState::Eating
            && next_state_by_contact(s, links_player) == EnemyState::Eating,
{
}

} // verus!
