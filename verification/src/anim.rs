//! Frame-accurate sprite-animation playback: a clip is an immutable ordered
//! sequence of timed frames, a playback state is the clip currently assigned
//! to an entity plus the time elapsed since that assignment. A looping clip
//! wraps modulo its total duration; a hold clip freezes on its last frame.
//! Reassigning a clip always zeroes the elapsed time: a stale cursor against a
//! new clip would show a garbled first frame.
use vstd::prelude::*;

verus! {

/// One sprite frame of a clip: an index into a texture atlas and how long the
/// frame stays on screen.
#[derive(Clone, Copy, PartialEq, Eq, Structural, Debug)]
pub struct Frame {
    pub sprite_index: usize,
    pub duration_ms: u64,
}

/// Whether the playback position wraps past the end or freezes on the last
/// frame.
#[derive(Clone, Copy, PartialEq, Eq, Structural, Debug)]
pub enum ClipMode {
    Looping,
    OnceHold,
}

/// An immutable ordered sequence of timed sprite frames.
#[derive(Debug)]
pub struct Clip {
    pub frames: Vec<Frame>,
    pub mode: ClipMode,
}

/// Sum of the durations of `frames[i..]`.
pub open spec fn total_from(frames: Seq<Frame>, i: int) -> int
    decreases frames.len() - i,
{
    if i < 0 || i >= frames.len() {
        0
    } else {
        frames[i].duration_ms + total_from(frames, i + 1)
    }
}

/// Total duration of a clip's frames.
pub open spec fn total_ms(frames: Seq<Frame>) -> int {
    total_from(frames, 0)
}

/// A usable clip: at least one frame, no zero-length frame, and a total
/// duration small enough that elapsed-time arithmetic stays in `u64`.
pub open spec fn clip_wf(c: Clip) -> bool {
    &&& c.frames@.len() >= 1
    &&& (forall|i: int| 0 <= i < c.frames@.len() ==> c.frames@[i].duration_ms >= 1)
    &&& total_ms(c.frames@) <= 0x1_0000_0000
}

pub proof fn lemma_total_from_nonneg(frames: Seq<Frame>, i: int)
    ensures
        total_from(frames, i) >= 0,
    decreases frames.len() - i,
{
    if 0 <= i < frames.len() {
        lemma_total_from_nonneg(frames, i + 1);
    }
}

/// With every frame at least 1 ms long, a clip's total duration covers its
/// frame count, so a well-formed clip has a positive total.
pub proof fn lemma_total_from_lower(frames: Seq<Frame>, i: int)
    requires
        0 <= i <= frames.len(),
        forall|j: int| 0 <= j < frames.len() ==> frames[j].duration_ms >= 1,
    ensures
        total_from(frames, i) >= frames.len() - i,
    decreases frames.len() - i,
{
    if i < frames.len() {
        lemma_total_from_lower(frames, i + 1);
    }
}

/// The sprite index shown at offset `t` into `frames[i..]`: walk the durations
/// until one covers `t`; past the end, the last frame is shown.
pub open spec fn frame_at_from(frames: Seq<Frame>, i: int, t: int) -> int
    decreases frames.len() - i,
{
    if i < 0 || i >= frames.len() {
        0
    } else if t < frames[i].duration_ms || i == frames.len() - 1 {
        frames[i].sprite_index as int
    } else {
        frame_at_from(frames, i + 1, t - frames[i].duration_ms)
    }
}

/// The sprite index a clip shows once `elapsed` milliseconds have passed since
/// it was assigned: wrapped modulo the total for a looping clip, frozen on the
/// last frame for a hold clip.
pub open spec fn displayed_frame(c: Clip, elapsed: int) -> int {
    if c.mode == ClipMode::Looping {
        frame_at_from(c.frames@, 0, elapsed % total_ms(c.frames@))
    } else {
        frame_at_from(c.frames@, 0, elapsed)
    }
}

/// Where the cursor stands after one advancement by `delta`: the transition
/// function `Playback::advance` implements.
pub open spec fn spec_advanced(pb: Playback, table: ClipTable, delta: int) -> Playback {
    let c = table.clips@[pb.clip as int];
    let total = total_ms(c.frames@);
    if c.mode == ClipMode::Looping {
        Playback { clip: pb.clip, elapsed_ms: ((pb.elapsed_ms + delta) % total) as u64 }
    } else {
        Playback { clip: pb.clip, elapsed_ms: vstd::math::min(pb.elapsed_ms + delta, total) as u64 }
    }
}

/// The read-only table of clip definitions, shared by every entity's playback
/// state; playback states refer to clips by index.
pub struct ClipTable {
    pub clips: Vec<Clip>,
}

impl ClipTable {
    pub open spec fn wf(self) -> bool {
        forall|i: int| 0 <= i < self.clips@.len() ==> clip_wf(#[trigger] self.clips@[i])
    }
}

/// Per-entity playback state: the index of the currently assigned clip and the
/// elapsed time since that clip was last (re)assigned.
#[derive(Clone, Copy, PartialEq, Eq, Structural, Debug)]
pub struct Playback {
    pub clip: usize,
    pub elapsed_ms: u64,
}

impl Playback {
    /// Valid against a table: the clip index resolves, and the elapsed cursor
    /// has not run past one period of the clip.
    pub open spec fn wf(self, table: ClipTable) -> bool {
        &&& self.clip < table.clips@.len()
        &&& (table.clips@[self.clip as int].mode == ClipMode::Looping ==> self.elapsed_ms
            < total_ms(table.clips@[self.clip as int].frames@))
        &&& self.elapsed_ms <= total_ms(table.clips@[self.clip as int].frames@)
    }

    pub fn new(clip: usize) -> (r: Playback)
        ensures
            r.clip == clip,
            r.elapsed_ms == 0,
    {
        Playback { clip, elapsed_ms: 0 }
    }

    /// Assign a clip. The elapsed cursor is zeroed unconditionally — also when
    /// the clip index equals the one already assigned, so that a caller who
    /// needs a semantic restart gets one.
    pub fn assign(&mut self, clip: usize)
        ensures
            final(self).clip == clip,
            final(self).elapsed_ms == 0,
    {
        self.clip = clip;
        self.elapsed_ms = 0;
    }

    /// Advance the cursor by this tick's delta: wrap modulo the total duration
    /// for a looping clip, clamp at the total for a hold clip (the last frame
    /// is then held indefinitely).
    pub fn advance(&mut self, table: &ClipTable, delta_ms: u64)
        requires
            table.wf(),
            old(self).wf(*table),
            delta_ms <= 0x1_0000_0000,
        ensures
            *final(self) == spec_advanced(*old(self), *table, delta_ms as int),
            final(self).clip == old(self).clip,
            table.clips@[old(self).clip as int].mode == ClipMode::Looping ==> final(
                self
            ).elapsed_ms == (old(self).elapsed_ms + delta_ms) % total_ms(
                table.clips@[old(self).clip as int].frames@,
            ),
            table.clips@[old(self).clip as int].mode == ClipMode::OnceHold ==> final(
                self
            ).elapsed_ms as int == vstd::math::min(
                old(self).elapsed_ms + delta_ms,
                total_ms(table.clips@[old(self).clip as int].frames@),
            ),
            final(self).wf(*table),
    {
        let c = &table.clips[self.clip];
        proof {
            lemma_total_from_lower(c.frames@, 0);
            lemma_total_from_nonneg(c.frames@, 0);
        }
        let total = total_duration_ms(c);
        let sum = self.elapsed_ms + delta_ms;
        match c.mode {
            ClipMode::Looping => {
                self.elapsed_ms = sum % total;
            },
            ClipMode::OnceHold => {
                self.elapsed_ms = if sum > total {
                    total
                } else {
                    sum
                };
            },
        }
    }

    /// The sprite index to display this tick.
    pub fn frame_index(&self, table: &ClipTable) -> (r: usize)
        requires
            table.wf(),
            self.wf(*table),
        ensures
            r as int == displayed_frame(table.clips@[self.clip as int], self.elapsed_ms as int),
    {
        let c = &table.clips[self.clip];
        proof {
            lemma_total_from_lower(c.frames@, 0);
        }
        let offset: u64 = match c.mode {
            ClipMode::Looping => {
                let total = total_duration_ms(c);
                self.elapsed_ms % total
            },
            ClipMode::OnceHold => self.elapsed_ms,
        };
        assert(frame_at_from(c.frames@, 0, offset as int) == displayed_frame(
            table.clips@[self.clip as int],
            self.elapsed_ms as int,
        ));
        let mut i: usize = 0;
        let mut t: u64 = offset;
        loop
            invariant
                table.wf(),
                self.wf(*table),
                c == table.clips@[self.clip as int],
                0 <= i < c.frames@.len(),
                frame_at_from(c.frames@, i as int, t as int) == displayed_frame(
                    table.clips@[self.clip as int],
                    self.elapsed_ms as int,
                ),
            decreases c.frames@.len() - i,
        {
            let f = &c.frames[i];
            if t < f.duration_ms || i == c.frames.len() - 1 {
                return f.sprite_index;
            }
            t = t - f.duration_ms;
            i = i + 1;
        }
    }
}

/// Total duration of a well-formed clip, in milliseconds.
pub fn total_duration_ms(c: &Clip) -> (t: u64)
    requires
        clip_wf(*c),
    ensures
        t == total_ms(c.frames@),
        t >= 1,
{
    proof {
        lemma_total_from_lower(c.frames@, 0);
    }
    let mut acc: u64 = 0;
    let mut i: usize = c.frames.len();
    while i > 0
        invariant
            i <= c.frames@.len(),
            clip_wf(*c),
            acc == total_from(c.frames@, i as int),
        decreases i,
    {
        proof {
            lemma_total_from_nonneg(c.frames@, i as int);
            lemma_total_from_prefix_bound(c.frames@, (i - 1) as int);
        }
        i = i - 1;
        acc = acc + c.frames[i].duration_ms;
    }
    acc
}

/// A playback that has just been assigned a clip of a well-formed table is
/// valid against it: the zeroed cursor sits strictly inside one period.
pub proof fn lemma_fresh_playback_wf(table: ClipTable, clip: usize)
    requires
        table.wf(),
        clip < table.clips@.len(),
    ensures
        (Playback { clip, elapsed_ms: 0u64 }).wf(table),
{
    lemma_total_from_lower(table.clips@[clip as int].frames@, 0);
}

/// Every suffix sum is bounded by the whole sum when durations are
/// non-negative.
pub proof fn lemma_total_from_prefix_bound(frames: Seq<Frame>, i: int)
    requires
        0 <= i < frames.len(),
    ensures
        total_from(frames, i) <= total_ms(frames),
    decreases i,
{
    if i > 0 {
        lemma_total_from_prefix_bound(frames, i - 1);
    }
}

} // verus!
