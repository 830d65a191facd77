//! Treasure entities: spawned from the level's coordinate list, consumed by
//! player contact. A slot is never removed, only marked dead, so a duplicate
//! or stale contact event against an already-collected treasure resolves to
//! nothing and is silently ignored — collection is idempotent per entity.
use vstd::prelude::*;
use crate::events::ContactPair;
use crate::events::spec_links;
use crate::geom::Vec2Fx;

verus! {

/// One treasure: its stable entity id, its fixed position, and whether it is
/// still uncollected.
#[derive(Clone, Copy, PartialEq, Eq, Structural, Debug)]
pub struct TreasureSlot {
    pub id: u64,
    pub position: Vec2Fx,
    pub alive: bool,
}

/// How many of the slots from index `k` on are still alive.
pub open spec fn live_count_from(ts: Seq<TreasureSlot>, k: int) -> int
    decreases ts.len() - k,
{
    if k < 0 || k >= ts.len() {
        0
    } else {
        (if ts[k].alive {
            1int
        } else {
            0int
        }) + live_count_from(ts, k + 1)
    }
}

/// The live-treasure count the portal machine watches.
pub open spec fn live_count(ts: Seq<TreasureSlot>) -> int {
    live_count_from(ts, 0)
}

pub proof fn lemma_live_count_from_bounds(ts: Seq<TreasureSlot>, k: int)
    requires
        0 <= k <= ts.len(),
    ensures
        0 <= live_count_from(ts, k) <= ts.len() - k,
    decreases ts.len() - k,
{
    if k < ts.len() {
        lemma_live_count_from_bounds(ts, k + 1);
    }
}

/// How many of the slots from index `k` on were alive before and are dead
/// after: the number of treasures a pass collected.
pub open spec fn collected_from(before: Seq<TreasureSlot>, after: Seq<TreasureSlot>, k: int) -> int
    decreases before.len() - k,
{
    if k < 0 || k >= before.len() || after.len() != before.len() {
        0
    } else {
        (if before[k].alive && !after[k].alive {
            1int
        } else {
            0int
        }) + collected_from(before, after, k + 1)
    }
}

/// How many treasures a pass collected.
pub open spec fn collected_count(before: Seq<TreasureSlot>, after: Seq<TreasureSlot>) -> int {
    collected_from(before, after, 0)
}

/// Nothing collected yet: a pass that has not despawned anything counts zero.
pub proof fn lemma_collected_none(before: Seq<TreasureSlot>, after: Seq<TreasureSlot>, k: int)
    requires
        before.len() == after.len(),
        forall|m: int| 0 <= m < before.len() ==> ((#[trigger] before[m]).alive ==> after[m].alive),
    ensures
        collected_from(before, after, k) == 0,
    decreases before.len() - k,
{
    if 0 <= k < before.len() {
        lemma_collected_none(before, after, k + 1);
    }
}

/// Despawning one slot that is still alive raises the collected count by one.
pub proof fn lemma_collected_step(
    before: Seq<TreasureSlot>,
    mid: Seq<TreasureSlot>,
    after: Seq<TreasureSlot>,
    t: int,
    k: int,
)
    requires
        before.len() == mid.len(),
        mid.len() == after.len(),
        0 <= t < mid.len(),
        forall|m: int| 0 <= m < mid.len() && m != t ==> mid[m] == after[m],
        before[t].alive,
        mid[t].alive,
        !after[t].alive,
        0 <= k <= before.len(),
    ensures
        collected_from(before, after, k) == collected_from(before, mid, k) + if k <= t {
            1int
        } else {
            0int
        },
    decreases before.len() - k,
{
    if k < before.len() {
        lemma_collected_step(before, mid, after, t, k + 1);
    }
}

/// A run of slots that are all alive counts fully.
pub proof fn lemma_all_alive_count(ts: Seq<TreasureSlot>, k: int)
    requires
        0 <= k <= ts.len(),
        forall|m: int| 0 <= m < ts.len() ==> (#[trigger] ts[m]).alive,
    ensures
        live_count_from(ts, k) == ts.len() - k,
    decreases ts.len() - k,
{
    if k < ts.len() {
        lemma_all_alive_count(ts, k + 1);
    }
}

/// Count the treasures still alive.
pub fn count_live(ts: &Vec<TreasureSlot>) -> (n: usize)
    ensures
        n as int == live_count(ts@),
{
    proof {
        lemma_live_count_from_bounds(ts@, 0);
    }
    let mut n: usize = 0;
    let mut k: usize = ts.len();
    while k > 0
        invariant
            ts@.len() <= usize::MAX,
            k <= ts@.len(),
            n as int == live_count_from(ts@, k as int),
            n <= ts@.len() - k,
        decreases k,
    {
        proof {
            lemma_live_count_from_bounds(ts@, (k - 1) as int);
        }
        k = k - 1;
        if ts[k].alive {
            n = n + 1;
        }
    }
    n
}

/// Whether slot `k` is a live treasure that the pair links with the player.
pub open spec fn linked_alive_at(
    ts: Seq<TreasureSlot>,
    pair: ContactPair,
    player_id: u64,
    k: int,
) -> bool {
    0 <= k < ts.len() && ts[k].alive && spec_links(pair, player_id, ts[k].id)
}

/// The slot a contact event collects: the first live treasure the pair links
/// with the player, if any. A pair whose ids resolve to no live treasure —
/// a stale event against an already-collected entity among them — finds
/// nothing.
pub fn find_linked_treasure(ts: &Vec<TreasureSlot>, pair: &ContactPair, player_id: u64) -> (r:
    Option<usize>)
    ensures
        match r {
            Some(k) => linked_alive_at(ts@, *pair, player_id, k as int) && (forall|m: int|
                0 <= m < k ==> !linked_alive_at(ts@, *pair, player_id, m)),
            None => forall|m: int| 0 <= m < ts@.len() ==> !linked_alive_at(ts@, *pair, player_id, m),
        },
{
    let mut k: usize = 0;
    while k < ts.len()
        invariant
            k <= ts@.len(),
            forall|m: int| 0 <= m < k ==> !linked_alive_at(ts@, *pair, player_id, m),
        decreases ts@.len() - k,
    {
        let slot = &ts[k];
        if slot.alive && pair.links(player_id, slot.id) {
            return Some(k);
        }
        k = k + 1;
    }
    None
}

/// Collection reads a contact as an unordered pair: swapping the handles of an
/// event changes nothing about which treasure it collects.
pub proof fn lemma_find_order_independent(
    ts: Seq<TreasureSlot>,
    pair: ContactPair,
    player_id: u64,
    k: int,
)
    ensures
        linked_alive_at(ts, pair, player_id, k) == linked_alive_at(
            ts,
            crate::events::spec_swapped(pair),
            player_id,
            k,
        ),
{
}

} // verus!
