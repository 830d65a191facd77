//! The exit-portal state machine: Closed until the count of live treasures
//! reaches zero, then Opened — exactly once, irreversibly, with the opened
//! clip assigned (reset) and an audio cue requested on the transition tick.
use vstd::prelude::*;
use crate::anim::Playback;

verus! {

/// The clip-table indices of the portal's two clips.
#[derive(Clone, Copy, PartialEq, Eq, Structural, Debug)]
pub struct PortalClips {
    pub closed: usize,
    pub opened: usize,
}

/// The single portal's behavior state.
#[derive(Clone, Copy, PartialEq, Eq, Structural, Debug)]
pub struct Portal {
    pub opened: bool,
    pub playback: Playback,
}

/// Whether the portal is open after one evaluation against the live-treasure
/// count.
pub open spec fn portal_next(opened: bool, treasure_count: nat) -> bool {
    opened || treasure_count == 0
}

impl Portal {
    /// The portal as spawned: closed, showing the closed clip from its start.
    pub fn spawn(clips: &PortalClips) -> (p: Portal)
        ensures
            !p.opened,
            p.playback == (Playback { clip: clips.closed, elapsed_ms: 0u64 }),
    {
        Portal { opened: false, playback: Playback::new(clips.closed) }
    }

    /// The per-tick evaluation. On the one tick on which the live-treasure
    /// count is zero and the portal is still closed, it opens: the opened clip
    /// is assigned with a reset and an audio cue is requested (the returned
    /// flag). Any later evaluation is a no-op.
    pub fn update(&mut self, treasure_count: usize, clips: &PortalClips) -> (cue: bool)
        ensures
            final(self).opened == portal_next(old(self).opened, treasure_count as nat),
            cue == (!old(self).opened && treasure_count == 0),
            cue ==> final(self).playback == (Playback { clip: clips.opened, elapsed_ms: 0u64 }),
            !cue ==> *final(self) == *old(self),
            old(self).opened ==> final(self).opened,
    {
        if treasure_count == 0 && !self.opened {
            self.playback.assign(clips.opened);
            self.opened = true;
            true
        } else {
            false
        }
    }
}

/// Laws of the portal machine: a closed portal opens exactly when the
/// live-treasure count is zero; an opened portal stays opened whatever the
/// count does, so the Closed-to-Opened transition happens at most once and is
/// never reversed.
pub proof fn lemma_portal_rules(opened: bool, count: nat, later_count: nat)
    ensures
        !opened ==> (portal_next(opened, count) <==> count == 0),
        opened ==> portal_next(opened, count),
        portal_next(true, later_count),
{
}

} // verus!
