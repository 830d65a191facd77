//! The transient-marker queue: at most one ordinary on-screen message lives at
//! a time, spawning a second while one is alive is a benign no-op, and a
//! marker is despawned on the first tick on which its age exceeds its
//! configured display duration. The full-screen terminal (game-over) marker is
//! exempt from both the single-marker guard and the expiry rule.
use vstd::prelude::*;

verus! {

/// How many distinct messages the ordinary-marker message set holds.
pub const MESSAGE_COUNT: usize = 7;

/// How long an ordinary marker stays on screen, in milliseconds.
pub const MARKER_DURATION_MS: u64 = 200;

/// One on-screen message: an index into the fixed message set, the time it was
/// spawned, and how long it is to stay on screen.
#[derive(Clone, Copy, PartialEq, Eq, Structural, Debug)]
pub struct TransientMarker {
    pub message: usize,
    pub spawned_at_ms: u64,
    pub duration_ms: u64,
}

/// The marker queue: the ordinary marker slot (holding the at-most-one
/// invariant by construction) and the terminal game-over flag.
#[derive(Clone, Copy, PartialEq, Eq, Structural, Debug)]
pub struct MarkerQueue {
    pub active: Option<TransientMarker>,
    pub terminal_active: bool,
}

impl MarkerQueue {
    /// How many ordinary markers are alive.
    pub open spec fn alive_count(self) -> nat {
        if self.active is Some {
            1
        } else {
            0
        }
    }

    /// Markers carry spawn times no later than the given clock reading.
    pub open spec fn time_wf(self, now_ms: u64) -> bool {
        self.active is Some ==> self.active->0.spawned_at_ms <= now_ms
    }

    pub fn new() -> (q: MarkerQueue)
        ensures
            q.active is None,
            !q.terminal_active,
    {
        MarkerQueue { active: None, terminal_active: false }
    }

    /// Spawn an ordinary marker with its display duration. Rejected as a no-op
    /// while one is already alive — two triggers racing in one tick leave the
    /// first marker in place.
    pub fn try_spawn(&mut self, message: usize, duration_ms: u64, now_ms: u64) -> (spawned: bool)
        ensures
            spawned == (old(self).active is None),
            !spawned ==> *final(self) == *old(self),
            spawned ==> final(self).active == Some(
                TransientMarker { message, spawned_at_ms: now_ms, duration_ms },
            ),
            final(self).terminal_active == old(self).terminal_active,
    {
        match self.active {
            Some(_) => false,
            None => {
                self.active = Some(TransientMarker { message, spawned_at_ms: now_ms, duration_ms });
                true
            },
        }
    }

    /// Per-tick expiry: the alive marker is despawned exactly when its age
    /// exceeds its configured duration (an age equal to the duration keeps it
    /// one more tick). The terminal marker never expires.
    pub fn expire_tick(&mut self, now_ms: u64)
        requires
            old(self).time_wf(now_ms),
        ensures
            old(self).active is Some ==> final(self).active == (if now_ms - old(
                self,
            ).active->0.spawned_at_ms > old(self).active->0.duration_ms {
                None::<TransientMarker>
            } else {
                old(self).active
            }),
            old(self).active is None ==> final(self).active is None,
            final(self).terminal_active == old(self).terminal_active,
    {
        match self.active {
            Some(m) => {
                if now_ms - m.spawned_at_ms > m.duration_ms {
                    self.active = None;
                }
            },
            None => {},
        }
    }

    /// Raise the terminal game-over marker. It is exempt from the
    /// single-marker guard (an ordinary marker may be alive beside it) and
    /// from expiry.
    pub fn spawn_terminal(&mut self)
        ensures
            final(self).terminal_active,
            final(self).active == old(self).active,
    {
        self.terminal_active = true;
    }
}

/// Law of the queue: however it is driven, at most one ordinary transient
/// marker is alive at any instant.
pub proof fn lemma_at_most_one_marker(q: MarkerQueue)
    ensures
        q.alive_count() <= 1,
{
}

/// The fixed message set an ordinary marker displays from.
pub fn message_text(i: usize) -> (s: &'static str)
    requires
        i < MESSAGE_COUNT,
    ensures
        i == 0 ==> s@ == "CONSUME"@,
        i == 1 ==> s@ == "MARRY\nAND\nREPRODUCE"@,
        i == 2 ==> s@ == "CONFORM"@,
        i == 3 ==> s@ == "NO\nINDEPENDENT\nTHOUGHT"@,
        i == 4 ==> s@ == "DO\nNOT\nQUESTION\nAUTHORITY"@,
        i == 5 ==> s@ == "WORK 8 HOURS\nSLEEP 8 HOURS\nPLAY 8 HOURS"@,
        i == 6 ==> s@ == "HONOR\nAPATHY"@,
{
    match i {
        0 => "CONSUME",
        1 => "MARRY\nAND\nREPRODUCE",
        2 => "CONFORM",
        3 => "NO\nINDEPENDENT\nTHOUGHT",
        4 => "DO\nNOT\nQUESTION\nAUTHORITY",
        5 => "WORK 8 HOURS\nSLEEP 8 HOURS\nPLAY 8 HOURS",
        _ => "HONOR\nAPATHY",
    }
}

/// The text the terminal game-over marker displays.
pub fn terminal_text() -> (s: &'static str)
    ensures
        s@ == "YOU WERE\nDEVOURED."@,
{
    "YOU WERE\nDEVOURED."
}

} // verus!
