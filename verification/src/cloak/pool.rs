//! The pool of browser instances: which instance is shown, pre-rendered,
//! listening headless or frozen, and the rules that move instances between
//! those states.
//!
//! Instances are kept in a vector whose ids are pairwise distinct; a
//! least-recently-used list of ids is kept for each of the three running
//! states (active, warming, monitoring).

use vstd::prelude::*;
use crate::cloak::config::{compute_max_active, max_active_for, now_ms, PoolConfig};
use crate::cloak::instance::{priority_scaled, CloakInstance, InstanceState, PriorityWeights};
use crate::text::{names, str_eq};

verus! {

/// `s` with every occurrence of `id` taken out, the rest in order.
pub open spec fn without(s: Seq<Seq<char>>, id: Seq<char>) -> Seq<Seq<char>>
    decreases s.len(),
{
    if s.len() == 0 {
        s
    } else {
        let rest = without(s.drop_last(), id);
        if s.last() == id {
            rest
        } else {
            rest.push(s.last())
        }
    }
}

/// No two instances share an id.
pub open spec fn ids_unique(s: Seq<CloakInstance>) -> bool {
    forall|i: int, j: int|
        0 <= i < s.len() && 0 <= j < s.len() && i != j ==> #[trigger] s[i].id@ != #[trigger] s[j].id@
}

/// Position of the instance with the given id, or -1.
pub open spec fn index_of(s: Seq<CloakInstance>, id: Seq<char>) -> int {
    if exists|i: int| 0 <= i < s.len() && #[trigger] s[i].id@ == id {
        choose|i: int| 0 <= i < s.len() && #[trigger] s[i].id@ == id
    } else {
        -1
    }
}

/// The instance with the given id, if any.
pub open spec fn lookup(s: Seq<CloakInstance>, id: Seq<char>) -> Option<CloakInstance> {
    let i = index_of(s, id);
    if 0 <= i < s.len() {
        Some(s[i])
    } else {
        None
    }
}

/// An instance in state `st`, stamped as updated at `now`.
pub open spec fn with_state(inst: CloakInstance, st: InstanceState, now: i64) -> CloakInstance {
    CloakInstance { state: st, updated_at: now, ..inst }
}

/// The state of a pool as the contracts see it: its instances and its
/// three least-recently-used lists of ids.
pub struct PoolModel {
    pub instances: Seq<CloakInstance>,
    pub lru_active: Seq<Seq<char>>,
    pub lru_warm: Seq<Seq<char>>,
    pub lru_monitor: Seq<Seq<char>>,
    pub config: PoolConfig,
    pub total_ram_mgb: u64,
    pub pool_memory_mb: u64,
}

impl PoolModel {
    /// Ids are distinct and the instances can be counted in a `u32`.
    pub open spec fn wf(self) -> bool {
        &&& ids_unique(self.instances)
        &&& self.instances.len() <= u32::MAX
    }

    pub open spec fn lru_without(self, id: Seq<char>, st: InstanceState) -> PoolModel {
        match st {
            InstanceState::Active => PoolModel { lru_active: without(self.lru_active, id), ..self },
            InstanceState::Warming => PoolModel { lru_warm: without(self.lru_warm, id), ..self },
            InstanceState::Monitoring => PoolModel { lru_monitor: without(self.lru_monitor, id), ..self },
            _ => self,
        }
    }

    pub open spec fn lru_with(self, id: Seq<char>, st: InstanceState) -> PoolModel {
        match st {
            InstanceState::Active => PoolModel { lru_active: self.lru_active.push(id), ..self },
            InstanceState::Warming => PoolModel { lru_warm: self.lru_warm.push(id), ..self },
            InstanceState::Monitoring => PoolModel { lru_monitor: self.lru_monitor.push(id), ..self },
            _ => self,
        }
    }

    pub open spec fn with_instance(self, i: int, inst: CloakInstance) -> PoolModel {
        PoolModel { instances: self.instances.update(i, inst), ..self }
    }

    /// The instance `id` moved to state `st` at time `now`: it leaves the
    /// list of its old state and goes to the end of the list of the new one.
    /// Nothing happens to an unknown id or to an instance already in `st`.
    pub open spec fn transitioned(self, id: Seq<char>, st: InstanceState, now: i64) -> PoolModel {
        let i = index_of(self.instances, id);
        if i < 0 {
            self
        } else {
            let old = self.instances[i].state;
            if old == st {
                self
            } else {
                self.lru_without(id, old).with_instance(i, with_state(self.instances[i], st, now)).lru_with(id, st)
            }
        }
    }

    /// The instances `ids` moved to state `st` at time `now`, one after the other.
    pub open spec fn all_transitioned(self, ids: Seq<Seq<char>>, st: InstanceState, now: i64) -> PoolModel
        decreases ids.len(),
    {
        if ids.len() == 0 {
            self
        } else {
            self.all_transitioned(ids.drop_last(), st, now).transitioned(ids.last(), st, now)
        }
    }

    /// The instance `id` demoted by one step: active to warming, warming to monitoring.
    pub open spec fn demoted_one(self, id: Seq<char>, now: i64) -> PoolModel {
        let i = index_of(self.instances, id);
        if i < 0 {
            self
        } else if self.instances[i].state == InstanceState::Active {
            self.transitioned(id, InstanceState::Warming, now)
        } else if self.instances[i].state == InstanceState::Warming {
            self.transitioned(id, InstanceState::Monitoring, now)
        } else {
            self
        }
    }

    /// The instances `ids` demoted by one step each, one after the other.
    pub open spec fn demoted(self, ids: Seq<Seq<char>>, now: i64) -> PoolModel
        decreases ids.len(),
    {
        if ids.len() == 0 {
            self
        } else {
            self.demoted(ids.drop_last(), now).demoted_one(ids.last(), now)
        }
    }

    /// The instance `id` touched by the user at `now`: its activity time is
    /// `now` and it moves to the end of the list of its state.
    pub open spec fn touched(self, id: Seq<char>, now: i64) -> PoolModel {
        let i = index_of(self.instances, id);
        if i < 0 {
            self
        } else {
            let st = self.instances[i].state;
            self.with_instance(i, CloakInstance { last_activity_at: now, ..self.instances[i] }).lru_without(
                id,
                st,
            ).lru_with(id, st)
        }
    }

    /// `count` more unread messages for the instance `id`, the last at `now`.
    pub open spec fn notified(self, id: Seq<char>, count: u32, now: i64) -> PoolModel {
        let i = index_of(self.instances, id);
        if i < 0 {
            self
        } else {
            self.with_instance(
                i,
                CloakInstance {
                    unread_count: (self.instances[i].unread_count + count) as u32,
                    last_message_at: now,
                    ..self.instances[i]
                },
            )
        }
    }

    /// The unread count of the instance `id` reset to zero.
    pub open spec fn read_marked(self, id: Seq<char>) -> PoolModel {
        let i = index_of(self.instances, id);
        if i < 0 {
            self
        } else {
            self.with_instance(i, CloakInstance { unread_count: 0, ..self.instances[i] })
        }
    }

    /// The pin of the instance `id` set to `pinned`.
    pub open spec fn pin_set(self, id: Seq<char>, pinned: bool) -> PoolModel {
        let i = index_of(self.instances, id);
        if i < 0 {
            self
        } else {
            self.with_instance(i, CloakInstance { is_pinned: pinned, ..self.instances[i] })
        }
    }

    /// `inst` stored under its id, replacing an instance with the same id;
    /// its id goes to the end of the monitoring list.
    pub open spec fn added(self, inst: CloakInstance) -> PoolModel {
        let i = index_of(self.instances, inst.id@);
        let m = if i < 0 {
            PoolModel { instances: self.instances.push(inst), ..self }
        } else {
            self.with_instance(i, inst)
        };
        PoolModel { lru_monitor: m.lru_monitor.push(inst.id@), ..m }
    }

    /// The instance `id` taken out, together with its id in the list of its state.
    pub open spec fn removed(self, id: Seq<char>) -> PoolModel {
        let i = index_of(self.instances, id);
        if i < 0 {
            self
        } else {
            PoolModel { instances: self.instances.remove(i), ..self }.lru_without(id, self.instances[i].state)
        }
    }
}

/// Number of instances in state `st`.
pub open spec fn count_state(s: Seq<CloakInstance>, st: InstanceState) -> nat
    decreases s.len(),
{
    if s.len() == 0 {
        0
    } else {
        count_state(s.drop_last(), st) + (if s.last().state == st { 1nat } else { 0nat })
    }
}

/// Number of instances in a heavy state (active or warming).
pub open spec fn heavy_count(s: Seq<CloakInstance>) -> nat
    decreases s.len(),
{
    if s.len() == 0 {
        0
    } else {
        heavy_count(s.drop_last()) + (if s.last().state.heavy() { 1nat } else { 0nat })
    }
}

/// Estimated memory of one instance in MB: 400 when rendered, 35 when
/// listening headless, nothing otherwise.
pub open spec fn state_memory_mb(st: InstanceState) -> nat {
    if st.heavy() {
        400
    } else if st == InstanceState::Monitoring {
        35
    } else {
        0
    }
}

/// Estimated memory of all instances, in MB.
pub open spec fn memory_estimate(s: Seq<CloakInstance>) -> nat
    decreases s.len(),
{
    if s.len() == 0 {
        0
    } else {
        memory_estimate(s.drop_last()) + state_memory_mb(s.last().state)
    }
}

/// Sum of the unread counts.
pub open spec fn total_unread(s: Seq<CloakInstance>) -> nat
    decreases s.len(),
{
    if s.len() == 0 {
        0
    } else {
        total_unread(s.drop_last()) + (s.last().unread_count as nat)
    }
}

/// Largest unread count (0 for no instances).
pub open spec fn max_unread(s: Seq<CloakInstance>) -> nat
    decreases s.len(),
{
    if s.len() == 0 {
        0
    } else {
        let m = max_unread(s.drop_last());
        if s.last().unread_count > m {
            s.last().unread_count as nat
        } else {
            m
        }
    }
}

/// A monitoring instance with at least three unread messages is promoted.
pub open spec fn promotable(inst: CloakInstance) -> bool {
    inst.state == InstanceState::Monitoring && inst.unread_count >= 3
}

/// Ids of the instances that satisfy `p`, in pool order.
pub open spec fn ids_where(s: Seq<CloakInstance>, p: spec_fn(CloakInstance) -> bool) -> Seq<Seq<char>>
    decreases s.len(),
{
    if s.len() == 0 {
        Seq::empty()
    } else if p(s.last()) {
        ids_where(s.drop_last(), p).push(s.last().id@)
    } else {
        ids_where(s.drop_last(), p)
    }
}

/// Ids of the promotable instances, in pool order.
pub open spec fn promote_ids(s: Seq<CloakInstance>) -> Seq<Seq<char>> {
    ids_where(s, |inst: CloakInstance| promotable(inst))
}

/// An unpinned monitoring instance with nothing unread whose last message is
/// older than `threshold_ms` at time `now` is frozen.
pub open spec fn freezable(inst: CloakInstance, now: int, threshold_ms: int) -> bool {
    &&& inst.state == InstanceState::Monitoring
    &&& !inst.is_pinned
    &&& inst.unread_count == 0
    &&& now - inst.last_message_at > threshold_ms
}

/// Ids of the freezable instances, in pool order.
pub open spec fn freeze_ids(s: Seq<CloakInstance>, now: int, threshold_ms: int) -> Seq<Seq<char>> {
    ids_where(s, |inst: CloakInstance| freezable(inst, now, threshold_ms))
}

/// The freeze threshold of a configuration, in ms, as the machine computes
/// it: the idle seconds times 1000, read as a signed 64-bit number.
pub open spec fn freeze_threshold_ms(c: PoolConfig) -> i64 {
    (c.freeze_idle_secs * 1000) as u64 as i64
}

/// Scheduling mode and priority weights (in tenths) for a load of `heavy`
/// rendered instances against `capacity` (at least 1) and `unread` unread
/// messages. Under pressure (more than 4/5 of the capacity rendered) only
/// unread counts; with little traffic (under 2 unread per slot) recency
/// counts; with heavy traffic (5 or more per slot) unread mostly counts;
/// otherwise both weigh in. The pin always adds a tenth.
pub open spec fn mode_for(heavy: int, capacity: int, unread: int) -> (u8, PriorityWeights) {
    if 5 * heavy > 4 * capacity {
        (4, PriorityWeights { unread: 10, recency: 0, pin: 1 })
    } else if unread < 2 * capacity {
        (1, PriorityWeights { unread: 0, recency: 10, pin: 1 })
    } else if unread >= 5 * capacity {
        (3, PriorityWeights { unread: 8, recency: 2, pin: 1 })
    } else {
        (2, PriorityWeights { unread: 6, recency: 4, pin: 1 })
    }
}

/// Window of the recency score: 30 minutes, in ms.
pub open spec fn recency_window_ms() -> int {
    1_800_000
}

/// Demotion order: `a` goes before `b` when `a` is unpinned and `b` pinned,
/// or both have the same pin and `a` scores no higher.
pub open spec fn demotion_le(a: CloakInstance, b: CloakInstance, w: PriorityWeights, m: int, now: int) -> bool {
    ||| !a.is_pinned && b.is_pinned
    ||| a.is_pinned == b.is_pinned && priority_scaled(a, w, m, recency_window_ms(), now) <= priority_scaled(
        b,
        w,
        m,
        recency_window_ms(),
        now,
    )
}

/// No id occurs twice.
pub open spec fn no_dup(ids: Seq<Seq<char>>) -> bool {
    forall|i: int, j: int| 0 <= i < ids.len() && 0 <= j < ids.len() && i != j ==> ids[i] != ids[j]
}

/// The instances `ids` are the ones to demote from a pool whose instances
/// are `s`: `count` of its rendered instances (or all of them, if fewer),
/// none ordered after a rendered instance left in place, listed lowest
/// first in the demotion order.
pub open spec fn lowest_rendered(
    s: Seq<CloakInstance>,
    ids: Seq<Seq<char>>,
    count: int,
    w: PriorityWeights,
    now: int,
) -> bool {
    let m = if max_unread(s) == 0 { 1 } else { max_unread(s) as int };
    &&& ids.len() == (if count < heavy_count(s) { count } else { heavy_count(s) as int })
    &&& no_dup(ids)
    &&& forall|k: int| 0 <= k < ids.len() ==> {
        &&& 0 <= #[trigger] index_of(s, ids[k]) < s.len()
        &&& s[index_of(s, ids[k])].state.heavy()
    }
    &&& forall|k: int, i: int|
        0 <= k < ids.len() && 0 <= i < s.len() && s[i].state.heavy() && !ids.contains(s[i].id@) ==> demotion_le(
            s[#[trigger] index_of(s, ids[k])],
            #[trigger] s[i],
            w,
            m,
            now,
        )
    &&& forall|a: int, b: int|
        0 <= a < b < ids.len() ==> demotion_le(
            s[#[trigger] index_of(s, ids[a])],
            s[#[trigger] index_of(s, ids[b])],
            w,
            m,
            now,
        )
}

/// Rebalancing of the pool `old` at time `now` gave the demoted ids `r` and
/// the pool `new`: the memory estimate is refreshed; when no more instances
/// are rendered than `max_active`, nothing else changes; otherwise the
/// surplus of rendered instances, taken lowest first in the demotion order
/// of the scheduling mode, is demoted by one step each.
pub open spec fn evaluated(old: PoolModel, r: Seq<Seq<char>>, new: PoolModel, now: i64) -> bool {
    let s = old.instances;
    let heavy = (count_state(s, InstanceState::Active) + count_state(s, InstanceState::Warming)) as int;
    let cap = old.config.max_active as int;
    let refreshed = PoolModel { pool_memory_mb: memory_estimate(s) as u64, ..old };
    &&& heavy <= cap ==> r.len() == 0 && new == refreshed
    &&& heavy > cap ==> {
        let w = mode_for(heavy, if cap < 1 { 1 } else { cap }, total_unread(s) as int).1;
        &&& lowest_rendered(s, r, heavy - cap, w, now as int)
        &&& new == refreshed.demoted(r, now)
    }
}

pub(crate) proof fn lemma_index_of_found(s: Seq<CloakInstance>, id: Seq<char>, i: int)
    requires
        ids_unique(s),
        0 <= i < s.len(),
        s[i].id@ == id,
    ensures
        index_of(s, id) == i,
{
    assert(exists|k: int| 0 <= k < s.len() && #[trigger] s[k].id@ == id);
    let j = choose|k: int| 0 <= k < s.len() && #[trigger] s[k].id@ == id;
    if j != i {
        assert(s[i].id@ != s[j].id@);
    }
}

/// An id is either absent, or found at a position that holds it.
pub(crate) proof fn lemma_index_of_cases(s: Seq<CloakInstance>, id: Seq<char>)
    ensures
        index_of(s, id) == -1 ==> forall|k: int| 0 <= k < s.len() ==> #[trigger] s[k].id@ != id,
        index_of(s, id) != -1 ==> 0 <= index_of(s, id) < s.len() && s[index_of(s, id)].id@ == id,
{
}

proof fn lemma_index_of_absent(s: Seq<CloakInstance>, id: Seq<char>)
    requires
        forall|k: int| 0 <= k < s.len() ==> #[trigger] s[k].id@ != id,
    ensures
        index_of(s, id) == -1,
{
}

proof fn lemma_update_keeps_unique(s: Seq<CloakInstance>, i: int, inst: CloakInstance)
    requires
        ids_unique(s),
        0 <= i < s.len(),
        inst.id@ == s[i].id@,
    ensures
        ids_unique(s.update(i, inst)),
        forall|id: Seq<char>| index_of(s.update(i, inst), id) == index_of(s, id),
{
    let t = s.update(i, inst);
    assert forall|a: int, b: int| 0 <= a < t.len() && 0 <= b < t.len() && a != b implies #[trigger] t[a].id@ != #[trigger] t[b].id@ by {
        assert(s[a].id@ != s[b].id@);
    }
    assert forall|id: Seq<char>| index_of(t, id) == index_of(s, id) by {
        if exists|k: int| 0 <= k < s.len() && #[trigger] s[k].id@ == id {
            let k = choose|k: int| 0 <= k < s.len() && #[trigger] s[k].id@ == id;
            assert(t[k].id@ == id);
            lemma_index_of_found(s, id, k);
            lemma_index_of_found(t, id, k);
        } else {
            assert forall|k: int| 0 <= k < t.len() implies #[trigger] t[k].id@ != id by {
                assert(s[k].id@ != id);
            }
        }
    }
}

proof fn lemma_remove_keeps_unique(s: Seq<CloakInstance>, i: int)
    requires
        ids_unique(s),
        0 <= i < s.len(),
    ensures
        ids_unique(s.remove(i)),
{
    let t = s.remove(i);
    assert forall|a: int, b: int| 0 <= a < t.len() && 0 <= b < t.len() && a != b implies #[trigger] t[a].id@ != #[trigger] t[b].id@ by {
        let a2 = if a < i { a } else { a + 1 };
        let b2 = if b < i { b } else { b + 1 };
        assert(t[a] == s[a2]);
        assert(t[b] == s[b2]);
        assert(s[a2].id@ != s[b2].id@);
    }
}

/// Demotion order on scored entries (position, pinned, score).
spec fn entry_le(a: (usize, bool, u128), b: (usize, bool, u128)) -> bool {
    (!a.1 && b.1) || (a.1 == b.1 && a.2 <= b.2)
}

spec fn in_either(a: Seq<usize>, b: Seq<usize>, j: usize) -> bool {
    a.contains(j) || b.contains(j)
}

/// Positions of the `count` lowest entries of `scored` (all of them if
/// fewer), lowest first.
fn select_lowest(scored: &Vec<(usize, bool, u128)>, count: usize) -> (order: Vec<usize>)
    ensures
        order.len() == (if count < scored.len() { count } else { scored.len() }),
        forall|i: int| 0 <= i < order.len() ==> #[trigger] order@[i] < scored.len(),
        forall|i: int, j: int| 0 <= i < order.len() && 0 <= j < order.len() && i != j ==> order@[i] != order@[j],
        forall|i: int, j: int|
            0 <= i < order.len() && 0 <= j < scored.len() && !order@.contains(j as usize) ==> entry_le(
                scored@[#[trigger] order@[i] as int],
                #[trigger] scored@[j],
            ),
        forall|i: int, j: int|
            0 <= i < j < order.len() ==> entry_le(scored@[#[trigger] order@[i] as int], scored@[#[trigger] order@[j] as int]),
{
    let n = scored.len();
    let mut rest: Vec<usize> = Vec::new();
    let mut t: usize = 0;
    while t < n
        invariant
            t <= n,
            n == scored.len(),
            rest@ == Seq::new(t as nat, |x: int| x as usize),
        decreases n - t,
    {
        rest.push(t);
        assert(rest@ =~= Seq::new((t + 1) as nat, |x: int| x as usize));
        t += 1;
    }
    let mut order: Vec<usize> = Vec::new();
    assert forall|j: usize| j < n implies #[trigger] in_either(order@, rest@, j) by {
        assert(rest@[j as int] == j);
    }
    while order.len() < count && rest.len() > 0
        invariant
            n == scored.len(),
            order.len() + rest.len() == n,
            order.len() <= count || (order.len() == 0),
            forall|i: int| 0 <= i < order.len() ==> #[trigger] order@[i] < n,
            forall|i: int| 0 <= i < rest.len() ==> #[trigger] rest@[i] < n,
            forall|i: int, j: int| 0 <= i < order.len() && 0 <= j < order.len() && i != j ==> order@[i] != order@[j],
            forall|i: int, j: int| 0 <= i < rest.len() && 0 <= j < rest.len() && i != j ==> rest@[i] != rest@[j],
            forall|i: int, j: int| 0 <= i < order.len() && 0 <= j < rest.len() ==> order@[i] != rest@[j],
            forall|j: usize| j < n ==> #[trigger] in_either(order@, rest@, j),
            forall|i: int, j: int|
                0 <= i < order.len() && 0 <= j < rest.len() ==> entry_le(
                    scored@[#[trigger] order@[i] as int],
                    scored@[#[trigger] rest@[j] as int],
                ),
            forall|i: int, j: int|
                0 <= i < j < order.len() ==> entry_le(scored@[#[trigger] order@[i] as int], scored@[#[trigger] order@[j] as int]),
        decreases rest.len(),
    {
        let mut best: usize = 0;
        let mut j: usize = 1;
        while j < rest.len()
            invariant
                n == scored.len(),
                1 <= j <= rest.len(),
                best < j,
                forall|i: int| 0 <= i < rest.len() ==> #[trigger] rest@[i] < n,
                forall|q: int| 0 <= q < j ==> entry_le(scored@[rest@[best as int] as int], scored@[#[trigger] rest@[q] as int]),
            decreases rest.len() - j,
        {
            let cand = scored[rest[j]];
            let cur = scored[rest[best]];
            if (!cand.1 && cur.1) || (cand.1 == cur.1 && cand.2 < cur.2) {
                best = j;
            }
            j += 1;
        }
        let ghost old_rest = rest@;
        let ghost old_order = order@;
        let b = rest.remove(best);
        order.push(b);
        proof {
            assert forall|i: int, k: int| 0 <= i < order.len() && 0 <= k < rest.len() implies entry_le(
                scored@[#[trigger] order@[i] as int],
                scored@[#[trigger] rest@[k] as int],
            ) by {
                let k2 = if k < best { k } else { k + 1 };
                assert(rest@[k] == old_rest[k2]);
                if i < old_order.len() {
                    assert(order@[i] == old_order[i]);
                } else {
                    assert(order@[i] == old_rest[best as int]);
                }
            }
            assert forall|i: int, k: int| 0 <= i < rest.len() && 0 <= k < rest.len() && i != k implies rest@[i] != rest@[k] by {
                let i2 = if i < best { i } else { i + 1 };
                let k2 = if k < best { k } else { k + 1 };
                assert(rest@[i] == old_rest[i2]);
                assert(rest@[k] == old_rest[k2]);
            }
            assert forall|i: int, k: int| 0 <= i < order.len() && 0 <= k < rest.len() implies order@[i] != rest@[k] by {
                let k2 = if k < best { k } else { k + 1 };
                assert(rest@[k] == old_rest[k2]);
                if i < old_order.len() {
                    assert(order@[i] == old_order[i]);
                }
            }
            assert forall|i: int, k: int| 0 <= i < order.len() && 0 <= k < order.len() && i != k implies order@[i] != order@[k] by {
                if i < old_order.len() && k < old_order.len() {
                } else if i < old_order.len() {
                    assert(old_order[i] != old_rest[best as int]);
                } else if k < old_order.len() {
                    assert(old_order[k] != old_rest[best as int]);
                }
            }
            assert forall|i: int, k: int| 0 <= i < k < order.len() implies entry_le(
                scored@[#[trigger] order@[i] as int],
                scored@[#[trigger] order@[k] as int],
            ) by {
                assert(order@[i] == old_order[i]);
                if k < old_order.len() {
                    assert(order@[k] == old_order[k]);
                } else {
                    assert(order@[k] == old_rest[best as int]);
                }
            }
            assert forall|i: int| 0 <= i < rest.len() implies #[trigger] rest@[i] < n by {
                let i2 = if i < best { i } else { i + 1 };
                assert(rest@[i] == old_rest[i2]);
            }
            assert forall|q: usize| q < n implies #[trigger] in_either(order@, rest@, q) by {
                assert(in_either(old_order, old_rest, q));
                if old_order.contains(q) {
                    let x = choose|x: int| 0 <= x < old_order.len() && old_order[x] == q;
                    assert(order@[x] == q);
                } else {
                    let x = choose|x: int| 0 <= x < old_rest.len() && old_rest[x] == q;
                    if x == best {
                        assert(order@[old_order.len() as int] == q);
                    } else if x < best {
                        assert(rest@[x] == q);
                    } else {
                        assert(rest@[x - 1] == q);
                    }
                }
            }
        }
    }
    proof {
        assert forall|i: int, j: int|
            0 <= i < order.len() && 0 <= j < scored.len() && !order@.contains(j as usize) implies entry_le(
                scored@[#[trigger] order@[i] as int],
                #[trigger] scored@[j],
            ) by {
            assert(in_either(order@, rest@, j as usize));
            assert(rest@.contains(j as usize));
            let x = choose|x: int| 0 <= x < rest.len() && rest@[x] == j as usize;
            assert(entry_le(scored@[order@[i] as int], scored@[rest@[x] as int]));
        }
    }
    order
}

spec fn has_pos(v: Seq<(usize, bool, u128)>, x: usize) -> bool {
    exists|k: int| 0 <= k < v.len() && v[k].0 == x
}

pub proof fn lemma_heavy_count_split(s: Seq<CloakInstance>)
    ensures
        heavy_count(s) == count_state(s, InstanceState::Active) + count_state(s, InstanceState::Warming),
        heavy_count(s) <= s.len(),
    decreases s.len(),
{
    if s.len() > 0 {
        lemma_heavy_count_split(s.drop_last());
    }
}

proof fn lemma_total_unread_bound(s: Seq<CloakInstance>)
    ensures
        total_unread(s) <= u32::MAX * s.len(),
    decreases s.len(),
{
    if s.len() > 0 {
        lemma_total_unread_bound(s.drop_last());
    }
}

/// Scheduling mode and weights; `capacity` is at least 1.
fn determine_mode(total_heavy: usize, capacity: usize, total_unread: u64) -> (r: (u8, PriorityWeights))
    ensures
        r == mode_for(total_heavy as int, capacity as int, total_unread as int),
{
    let h = total_heavy as u128;
    let c = capacity as u128;
    let u = total_unread as u128;
    if 5 * h > 4 * c {
        (4, PriorityWeights { unread: 10, recency: 0, pin: 1 })
    } else if u < 2 * c {
        (1, PriorityWeights { unread: 0, recency: 10, pin: 1 })
    } else if u >= 5 * c {
        (3, PriorityWeights { unread: 8, recency: 2, pin: 1 })
    } else {
        (2, PriorityWeights { unread: 6, recency: 4, pin: 1 })
    }
}

/// The instance pool.
pub struct InstancePool {
    instances: Vec<CloakInstance>,
    config: PoolConfig,
    lru_active: Vec<String>,
    lru_warm: Vec<String>,
    lru_monitor: Vec<String>,
    /// Memory of the machine, in thousandths of a GB.
    total_ram_mgb: u64,
    /// Estimated memory of all instances, in MB.
    pool_memory_mb: u64,
}

impl View for InstancePool {
    type V = PoolModel;

    closed spec fn view(&self) -> PoolModel {
        PoolModel {
            instances: self.instances@,
            lru_active: names(self.lru_active@),
            lru_warm: names(self.lru_warm@),
            lru_monitor: names(self.lru_monitor@),
            config: self.config,
            total_ram_mgb: self.total_ram_mgb,
            pool_memory_mb: self.pool_memory_mb,
        }
    }
}


/// `v` without the strings equal to `id`, in order.
fn retain_other(v: &Vec<String>, id: &str) -> (r: Vec<String>)
    ensures
        names(r@) == without(names(v@), id@),
{
    let mut r: Vec<String> = Vec::new();
    let mut i: usize = 0;
    while i < v.len()
        invariant
            i <= v.len(),
            names(r@) == without(names(v@).take(i as int), id@),
        decreases v.len() - i,
    {
        proof {
            assert(names(v@).take(i + 1).drop_last() =~= names(v@).take(i as int));
            assert(names(v@).take(i + 1).last() == v@[i as int]@);
        }
        if !str_eq(v[i].as_str(), id) {
            let ghost before = r@;
            let c = v[i].clone();
            r.push(c);
            proof {
                assert(names(r@) =~= names(before).push(c@));
            }
        }
        i += 1;
    }
    assert(names(v@).take(v.len() as int) =~= names(v@));
    r
}


/// `v` with a copy of `id` at the end.
fn push_name(v: &mut Vec<String>, id: &str)
    ensures
        names(final(v)@) == names(old(v)@).push(id@),
{
    let c = String::from_str(id);
    v.push(c);
    assert(names(v@) =~= names(old(v)@).push(id@));
}

impl InstancePool {
    /// A pool configured by `config`, planned for a machine with 8 GB of
    /// memory: its `max_active` is what that memory allows.
    pub fn new(config: PoolConfig) -> (r: Self)
        ensures
            r@.wf(),
            r@.instances.len() == 0,
            r@.lru_active.len() == 0,
            r@.lru_warm.len() == 0,
            r@.lru_monitor.len() == 0,
            r@.total_ram_mgb == 8000,
            r@.pool_memory_mb == 0,
            r@.config == (PoolConfig { max_active: max_active_for(8000, config) as u32, ..config }),
    {
        let total_ram: u64 = 8000;
        let mut pool = InstancePool {
            instances: Vec::new(),
            lru_active: Vec::new(),
            lru_warm: Vec::new(),
            lru_monitor: Vec::new(),
            total_ram_mgb: total_ram,
            pool_memory_mb: 0,
            config,
        };
        pool.config.max_active = compute_max_active(total_ram, &pool.config);
        proof {
            assert(names(pool.lru_active@) =~= Seq::<Seq<char>>::empty());
            assert(names(pool.lru_warm@) =~= Seq::<Seq<char>>::empty());
            assert(names(pool.lru_monitor@) =~= Seq::<Seq<char>>::empty());
        }
        pool
    }

    /// All instances, in the order the pool keeps them.
    pub fn instances(&self) -> (r: &Vec<CloakInstance>)
        ensures
            r@ == self@.instances,
    {
        &self.instances
    }

    /// The configuration the pool schedules by.
    pub fn config(&self) -> (r: PoolConfig)
        ensures
            r == self@.config,
    {
        self.config
    }

    /// Replaces the configuration; nothing else changes.
    pub fn set_config(&mut self, config: PoolConfig)
        ensures
            final(self)@ == (PoolModel { config, ..old(self)@ }),
    {
        self.config = config;
    }

    /// Memory of the machine, in thousandths of a GB.
    pub fn total_ram_mgb(&self) -> (r: u64)
        ensures
            r == self@.total_ram_mgb,
    {
        self.total_ram_mgb
    }

    /// The last memory estimate of all instances, in MB.
    pub fn pool_memory_mb(&self) -> (r: u64)
        ensures
            r == self@.pool_memory_mb,
    {
        self.pool_memory_mb
    }

    fn find_index(&self, id: &str) -> (r: Option<usize>)
        requires
            self@.wf(),
        ensures
            match r {
                Some(i) => i == index_of(self@.instances, id@) && i < self@.instances.len(),
                None => index_of(self@.instances, id@) == -1,
            },
    {
        let mut i: usize = 0;
        while i < self.instances.len()
            invariant
                i <= self.instances.len(),
                self@.wf(),
                forall|k: int| 0 <= k < i ==> #[trigger] self.instances@[k].id@ != id@,
            decreases self.instances.len() - i,
        {
            if str_eq(self.instances[i].id.as_str(), id) {
                proof {
                    lemma_index_of_found(self@.instances, id@, i as int);
                }
                return Some(i);
            }
            i += 1;
        }
        proof {
            lemma_index_of_absent(self@.instances, id@);
        }
        None
    }

    fn remove_from_lru(&mut self, id: &str, state: InstanceState)
        ensures
            final(self)@ == old(self)@.lru_without(id@, state),
    {
        match state {
            InstanceState::Active => {
                self.lru_active = retain_other(&self.lru_active, id);
            },
            InstanceState::Warming => {
                self.lru_warm = retain_other(&self.lru_warm, id);
            },
            InstanceState::Monitoring => {
                self.lru_monitor = retain_other(&self.lru_monitor, id);
            },
            _ => {},
        }
    }

    fn push_to_lru(&mut self, id: &str, state: InstanceState)
        ensures
            final(self)@ == old(self)@.lru_with(id@, state),
    {
        match state {
            InstanceState::Active => push_name(&mut self.lru_active, id),
            InstanceState::Warming => push_name(&mut self.lru_warm, id),
            InstanceState::Monitoring => push_name(&mut self.lru_monitor, id),
            _ => {},
        }
    }

    /// Stores `instance` under its id (replacing an instance with that id)
    /// and puts its id at the end of the monitoring list.
    pub fn add_instance(&mut self, instance: CloakInstance)
        requires
            old(self)@.wf(),
            index_of(old(self)@.instances, instance.id@) < 0 ==> old(self)@.instances.len() < u32::MAX,
        ensures
            final(self)@ == old(self)@.added(instance),
            final(self)@.wf(),
    {
        let id = instance.id.clone();
        let ghost inst = instance;
        match self.find_index(id.as_str()) {
            Some(i) => {
                self.instances.set(i, instance);
                proof {
                    let s = self@.instances;
                    assert forall|a: int, b: int|
                        0 <= a < s.len() && 0 <= b < s.len() && a != b implies #[trigger] s[a].id@ != #[trigger] s[b].id@ by {
                        assert(old(self)@.instances[a].id@ != old(self)@.instances[b].id@ || a == i || b == i);
                    }
                }
            },
            None => {
                self.instances.push(instance);
                proof {
                    let s = self@.instances;
                    assert forall|a: int, b: int|
                        0 <= a < s.len() && 0 <= b < s.len() && a != b implies #[trigger] s[a].id@ != #[trigger] s[b].id@ by {
                        if a < s.len() - 1 && b < s.len() - 1 {
                            assert(old(self)@.instances[a].id@ != old(self)@.instances[b].id@);
                        } else if a == s.len() - 1 {
                            assert(old(self)@.instances[b].id@ != id@);
                        } else {
                            assert(old(self)@.instances[a].id@ != id@);
                        }
                    }
                }
            },
        }
        push_name(&mut self.lru_monitor, id.as_str());
        proof {
            assert(self@ =~= old(self)@.added(inst));
        }
    }
    /// Takes out the instance `id`; tells whether there was one.
    pub fn remove_instance(&mut self, id: &str) -> (r: bool)
        requires
            old(self)@.wf(),
        ensures
            r == (index_of(old(self)@.instances, id@) >= 0),
            final(self)@ == old(self)@.removed(id@),
            final(self)@.wf(),
    {
        match self.find_index(id) {
            Some(i) => {
                let inst = self.instances.remove(i);
                proof {
                    lemma_remove_keeps_unique(old(self)@.instances, i as int);
                }
                self.remove_from_lru(id, inst.state);
                true
            },
            None => false,
        }
    }

    /// The instance `id`, if any.
    pub fn get_instance(&self, id: &str) -> (r: Option<&CloakInstance>)
        requires
            self@.wf(),
        ensures
            match r {
                Some(x) => lookup(self@.instances, id@) == Some(*x),
                None => lookup(self@.instances, id@) is None,
            },
    {
        match self.find_index(id) {
            Some(i) => Some(&self.instances[i]),
            None => None,
        }
    }

    /// The instance `id`, if any, for changing in place. The pool after the
    /// borrow ends holds, at that instance's place, whatever the borrow left.
    pub fn get_instance_mut(&mut self, id: &str) -> (r: Option<&mut CloakInstance>)
        requires
            old(self)@.wf(),
        ensures
            match r {
                Some(x) => {
                    &&& lookup(old(self)@.instances, id@) == Some(*x)
                    &&& final(self)@ == old(self)@.with_instance(index_of(old(self)@.instances, id@), *final(x))
                },
                None => {
                    &&& lookup(old(self)@.instances, id@) is None
                    &&& final(self)@ == old(self)@
                },
            },
    {
        match self.find_index(id) {
            Some(i) => Some(&mut self.instances[i]),
            None => None,
        }
    }

    /// Moves the instance `id` to `new_state` at time `now` (see `PoolModel::transitioned`).
    pub fn transition_to_at(&mut self, id: &str, new_state: InstanceState, now: i64)
        requires
            old(self)@.wf(),
        ensures
            final(self)@ == old(self)@.transitioned(id@, new_state, now),
            final(self)@.wf(),
    {
        match self.find_index(id) {
            None => {},
            Some(i) => {
                let old_state = self.instances[i].state;
                if old_state == new_state {
                    return;
                }
                self.remove_from_lru(id, old_state);
                let ghost before = self@;
                self.instances[i].state = new_state;
                self.instances[i].updated_at = now;
                proof {
                    let target = with_state(before.instances[i as int], new_state, now);
                    assert(self@.instances[i as int].state == target.state);
                    assert(self@.instances[i as int].id == target.id);
                    assert(self@.instances[i as int] == target);
                    assert(self@.instances =~= before.instances.update(i as int, target));
                    lemma_update_keeps_unique(before.instances, i as int, target);
                    assert(self@ =~= before.with_instance(i as int, target));
                }
                self.push_to_lru(id, new_state);
            },
        }
    }

    /// Moves the instance `id` to `new_state`, stamped with the current time.
    pub fn transition_to(&mut self, id: &str, new_state: InstanceState)
        requires
            old(self)@.wf(),
        ensures
            exists|now: i64| final(self)@ == old(self)@.transitioned(id@, new_state, now),
            final(self)@.wf(),
    {
        let now = now_ms();
        self.transition_to_at(id, new_state, now);
    }

    /// Records a user interaction with the instance `id` at time `now`.
    pub fn touch_at(&mut self, id: &str, now: i64)
        requires
            old(self)@.wf(),
        ensures
            final(self)@ == old(self)@.touched(id@, now),
            final(self)@.wf(),
    {
        match self.find_index(id) {
            None => {},
            Some(i) => {
                let ghost before = self@;
                self.instances[i].last_activity_at = now;
                let state = self.instances[i].state;
                proof {
                    lemma_update_keeps_unique(before.instances, i as int, self@.instances[i as int]);
                    assert(self@ =~= before.with_instance(i as int, CloakInstance { last_activity_at: now, ..before.instances[i as int] }));
                }
                self.remove_from_lru(id, state);
                self.push_to_lru(id, state);
            },
        }
    }

    /// Records a user interaction with the instance `id` now.
    pub fn touch(&mut self, id: &str)
        requires
            old(self)@.wf(),
        ensures
            exists|now: i64| final(self)@ == old(self)@.touched(id@, now),
            final(self)@.wf(),
    {
        let now = now_ms();
        self.touch_at(id, now);
    }

    /// Records `count` new messages for the instance `id`, the last at `now`.
    pub fn notify_message_at(&mut self, id: &str, count: u32, now: i64)
        requires
            old(self)@.wf(),
            lookup(old(self)@.instances, id@) matches Some(inst) ==> inst.unread_count + count <= u32::MAX,
        ensures
            final(self)@ == old(self)@.notified(id@, count, now),
            final(self)@.wf(),
    {
        match self.find_index(id) {
            None => {},
            Some(i) => {
                let ghost before = self@;
                self.instances[i].unread_count = self.instances[i].unread_count + count;
                self.instances[i].last_message_at = now;
                proof {
                    let target = CloakInstance {
                        unread_count: (before.instances[i as int].unread_count + count) as u32,
                        last_message_at: now,
                        ..before.instances[i as int]
                    };
                    assert(self@.instances[i as int] == target);
                    assert(self@.instances =~= before.instances.update(i as int, target));
                    lemma_update_keeps_unique(before.instances, i as int, target);
                    assert(self@ =~= before.notified(id@, count, now));
                }
            },
        }
    }

    /// Records `count` new messages for the instance `id`, the last now.
    pub fn notify_message(&mut self, id: &str, count: u32)
        requires
            old(self)@.wf(),
            lookup(old(self)@.instances, id@) matches Some(inst) ==> inst.unread_count + count <= u32::MAX,
        ensures
            exists|now: i64| final(self)@ == old(self)@.notified(id@, count, now),
            final(self)@.wf(),
    {
        let now = now_ms();
        self.notify_message_at(id, count, now);
    }

    /// Clears the unread count of the instance `id`.
    pub fn mark_read(&mut self, id: &str)
        requires
            old(self)@.wf(),
        ensures
            final(self)@ == old(self)@.read_marked(id@),
            final(self)@.wf(),
    {
        match self.find_index(id) {
            None => {},
            Some(i) => {
                let ghost before = self@;
                self.instances[i].unread_count = 0;
                proof {
                    lemma_update_keeps_unique(before.instances, i as int, self@.instances[i as int]);
                    assert(self@ =~= before.read_marked(id@));
                }
            },
        }
    }

    /// Pins or unpins the instance `id`.
    pub fn set_pinned(&mut self, id: &str, pinned: bool)
        requires
            old(self)@.wf(),
        ensures
            final(self)@ == old(self)@.pin_set(id@, pinned),
            final(self)@.wf(),
    {
        match self.find_index(id) {
            None => {},
            Some(i) => {
                let ghost before = self@;
                self.instances[i].is_pinned = pinned;
                proof {
                    lemma_update_keeps_unique(before.instances, i as int, self@.instances[i as int]);
                    assert(self@ =~= before.pin_set(id@, pinned));
                }
            },
        }
    }
    fn count_state(&self, state: InstanceState) -> (r: usize)
        ensures
            r == count_state(self@.instances, state),
            r <= self@.instances.len(),
    {
        let ghost s = self@.instances;
        let mut n: usize = 0;
        let mut i: usize = 0;
        while i < self.instances.len()
            invariant
                s == self@.instances,
                i <= s.len(),
                n == count_state(s.take(i as int), state),
                n <= i,
            decreases s.len() - i,
        {
            assert(s.take(i + 1).drop_last() =~= s.take(i as int));
            if self.instances[i].state == state {
                n += 1;
            }
            i += 1;
        }
        assert(s.take(s.len() as int) =~= s);
        n
    }

    fn update_memory_estimate(&mut self)
        requires
            old(self)@.wf(),
        ensures
            final(self)@ == (PoolModel { pool_memory_mb: memory_estimate(old(self)@.instances) as u64, ..old(self)@ }),
            memory_estimate(old(self)@.instances) <= u64::MAX,
    {
        let ghost s = self@.instances;
        let mut sum: u64 = 0;
        let mut i: usize = 0;
        while i < self.instances.len()
            invariant
                s == self@.instances,
                s.len() <= u32::MAX,
                i <= s.len(),
                sum == memory_estimate(s.take(i as int)),
                sum <= 400 * i,
            decreases s.len() - i,
        {
            assert(s.take(i + 1).drop_last() =~= s.take(i as int));
            let add: u64 = match self.instances[i].state {
                InstanceState::Active | InstanceState::Warming => 400,
                InstanceState::Monitoring => 35,
                _ => 0,
            };
            sum = sum + add;
            i += 1;
        }
        assert(s.take(s.len() as int) =~= s);
        self.pool_memory_mb = sum;
    }

    /// Counts of the instances by state, the memory estimate and the limits.
    pub fn stats(&self) -> (r: PoolStats)
        requires
            self@.wf(),
        ensures
            r.active == count_state(self@.instances, InstanceState::Active),
            r.warm == count_state(self@.instances, InstanceState::Warming),
            r.monitor == count_state(self@.instances, InstanceState::Monitoring),
            r.frozen == count_state(self@.instances, InstanceState::Frozen),
            r.total == self@.instances.len(),
            r.total_memory_mb == self@.pool_memory_mb,
            r.max_active == self@.config.max_active,
            r.total_ram_mgb == self@.total_ram_mgb,
    {
        PoolStats {
            active: self.count_state(InstanceState::Active) as u32,
            warm: self.count_state(InstanceState::Warming) as u32,
            monitor: self.count_state(InstanceState::Monitoring) as u32,
            frozen: self.count_state(InstanceState::Frozen) as u32,
            total: self.instances.len() as u32,
            total_memory_mb: self.pool_memory_mb,
            max_active: self.config.max_active,
            total_ram_mgb: self.total_ram_mgb,
        }
    }

    /// Moves the instances `ids` to `st` at `now`, one after the other.
    fn transition_all_at(&mut self, ids: &Vec<String>, st: InstanceState, now: i64)
        requires
            old(self)@.wf(),
        ensures
            final(self)@ == old(self)@.all_transitioned(names(ids@), st, now),
            final(self)@.wf(),
    {
        let mut k: usize = 0;
        while k < ids.len()
            invariant
                k <= ids.len(),
                self@ == old(self)@.all_transitioned(names(ids@).take(k as int), st, now),
                self@.wf(),
            decreases ids.len() - k,
        {
            proof {
                assert(names(ids@).take(k + 1).drop_last() =~= names(ids@).take(k as int));
                assert(names(ids@).take(k + 1).last() == ids@[k as int]@);
            }
            self.transition_to_at(ids[k].as_str(), st, now);
            k += 1;
        }
        assert(names(ids@).take(ids.len() as int) =~= names(ids@));
    }

    /// Promotes to warming, at time `now`, every monitoring instance with at
    /// least three unread messages; returns their ids in pool order.
    pub fn evaluate_promote_at(&mut self, now: i64) -> (r: Vec<String>)
        requires
            old(self)@.wf(),
        ensures
            names(r@) == promote_ids(old(self)@.instances),
            final(self)@ == old(self)@.all_transitioned(promote_ids(old(self)@.instances), InstanceState::Warming, now),
            final(self)@.wf(),
    {
        let ghost s = self@.instances;
        let mut ids: Vec<String> = Vec::new();
        let mut i: usize = 0;
        while i < self.instances.len()
            invariant
                s == self@.instances,
                i <= s.len(),
                names(ids@) == promote_ids(s.take(i as int)),
            decreases s.len() - i,
        {
            assert(s.take(i + 1).drop_last() =~= s.take(i as int));
            if self.instances[i].state == InstanceState::Monitoring && self.instances[i].unread_count >= 3 {
                let ghost before = ids@;
                ids.push(self.instances[i].id.clone());
                assert(names(ids@) =~= names(before).push(s[i as int].id@));
            }
            i += 1;
        }
        assert(s.take(s.len() as int) =~= s);
        self.transition_all_at(&ids, InstanceState::Warming, now);
        ids
    }

    /// Promotes to warming every monitoring instance with at least three
    /// unread messages, stamped with the current time.
    pub fn evaluate_promote(&mut self) -> (r: Vec<String>)
        requires
            old(self)@.wf(),
        ensures
            names(r@) == promote_ids(old(self)@.instances),
            exists|now: i64| final(self)@ == old(self)@.all_transitioned(promote_ids(old(self)@.instances), InstanceState::Warming, now),
            final(self)@.wf(),
    {
        let now = now_ms();
        self.evaluate_promote_at(now)
    }

    /// Freezes, at time `now`, every unpinned monitoring instance with
    /// nothing unread whose last message is older than the configured idle
    /// time; returns their ids in pool order.
    pub fn evaluate_freeze_at(&mut self, now: i64) -> (r: Vec<String>)
        requires
            old(self)@.wf(),
            old(self)@.config.freeze_idle_secs * 1000 <= u64::MAX,
        ensures
            names(r@) == freeze_ids(old(self)@.instances, now as int, freeze_threshold_ms(old(self)@.config) as int),
            final(self)@ == old(self)@.all_transitioned(
                freeze_ids(old(self)@.instances, now as int, freeze_threshold_ms(old(self)@.config) as int),
                InstanceState::Frozen,
                now,
            ),
            final(self)@.wf(),
    {
        let threshold: i64 = (self.config.freeze_idle_secs * 1000) as i64;
        let ghost s = self@.instances;
        let mut ids: Vec<String> = Vec::new();
        let mut i: usize = 0;
        while i < self.instances.len()
            invariant
                s == self@.instances,
                i <= s.len(),
                threshold == freeze_threshold_ms(self@.config),
                names(ids@) == freeze_ids(s.take(i as int), now as int, threshold as int),
            decreases s.len() - i,
        {
            assert(s.take(i + 1).drop_last() =~= s.take(i as int));
            let inst = &self.instances[i];
            if inst.state == InstanceState::Monitoring && !inst.is_pinned && inst.unread_count == 0
                && (now as i128) - (inst.last_message_at as i128) > threshold as i128 {
                let ghost before = ids@;
                ids.push(inst.id.clone());
                assert(names(ids@) =~= names(before).push(s[i as int].id@));
            }
            i += 1;
        }
        assert(s.take(s.len() as int) =~= s);
        self.transition_all_at(&ids, InstanceState::Frozen, now);
        ids
    }

    /// Freezes every unpinned monitoring instance with nothing unread whose
    /// last message is older than the configured idle time, as of now.
    pub fn evaluate_freeze(&mut self) -> (r: Vec<String>)
        requires
            old(self)@.wf(),
            old(self)@.config.freeze_idle_secs * 1000 <= u64::MAX,
        ensures
            exists|now: i64| {
                &&& names(r@) == freeze_ids(old(self)@.instances, now as int, freeze_threshold_ms(old(self)@.config) as int)
                &&& final(self)@ == old(self)@.all_transitioned(
                    freeze_ids(old(self)@.instances, now as int, freeze_threshold_ms(old(self)@.config) as int),
                    InstanceState::Frozen,
                    now,
                )
            },
            final(self)@.wf(),
    {
        let now = now_ms();
        self.evaluate_freeze_at(now)
    }
    fn max_unread_or_one(&self) -> (m: u32)
        ensures
            m == (if max_unread(self@.instances) == 0 { 1 } else { max_unread(self@.instances) }),
    {
        let ghost s = self@.instances;
        let mut cur: u32 = 0;
        let mut i: usize = 0;
        while i < self.instances.len()
            invariant
                s == self@.instances,
                i <= s.len(),
                cur == max_unread(s.take(i as int)),
            decreases s.len() - i,
        {
            assert(s.take(i + 1).drop_last() =~= s.take(i as int));
            if self.instances[i].unread_count > cur {
                cur = self.instances[i].unread_count;
            }
            i += 1;
        }
        assert(s.take(s.len() as int) =~= s);
        if cur == 0 { 1 } else { cur }
    }

    fn total_unread(&self) -> (r: u64)
        requires
            self@.wf(),
        ensures
            r == total_unread(self@.instances),
    {
        let ghost s = self@.instances;
        let mut sum: u64 = 0;
        let mut i: usize = 0;
        while i < self.instances.len()
            invariant
                s == self@.instances,
                s.len() <= u32::MAX,
                i <= s.len(),
                sum == total_unread(s.take(i as int)),
            decreases s.len() - i,
        {
            assert(s.take(i + 1).drop_last() =~= s.take(i as int));
            proof {
                lemma_total_unread_bound(s.take(i + 1));
                assert(u32::MAX * (i + 1) <= u32::MAX * u32::MAX) by (nonlinear_arith)
                    requires i + 1 <= u32::MAX;
            }
            sum = sum + self.instances[i].unread_count as u64;
            i += 1;
        }
        assert(s.take(s.len() as int) =~= s);
        sum
    }

    /// Demotes by one step the `count` rendered instances that come first in
    /// the demotion order under weights `w` at time `now`.
    fn demote_lowest_at(&mut self, count: usize, w: PriorityWeights, now: i64) -> (r: Vec<String>)
        requires
            old(self)@.wf(),
        ensures
            lowest_rendered(old(self)@.instances, names(r@), count as int, w, now as int),
            final(self)@ == old(self)@.demoted(names(r@), now),
            final(self)@.wf(),
    {
        let ghost s = self@.instances;
        let m = self.max_unread_or_one();
        let mut scored: Vec<(usize, bool, u128)> = Vec::new();
        let mut i: usize = 0;
        while i < self.instances.len()
            invariant
                s == self@.instances,
                self@.wf(),
                i <= s.len(),
                m == (if max_unread(s) == 0 { 1 } else { max_unread(s) }),
                scored.len() == heavy_count(s.take(i as int)),
                forall|k: int| 0 <= k < scored.len() ==> {
                    &&& (#[trigger] scored@[k]).0 < i
                    &&& s[scored@[k].0 as int].state.heavy()
                    &&& scored@[k].1 == s[scored@[k].0 as int].is_pinned
                    &&& scored@[k].2 == priority_scaled(s[scored@[k].0 as int], w, m as int, recency_window_ms(), now as int)
                },
                forall|a: int, b: int| 0 <= a < b < scored.len() ==> (#[trigger] scored@[a]).0 < (#[trigger] scored@[b]).0,
                forall|x: usize| x < i && s[x as int].state.heavy() ==> #[trigger] has_pos(scored@, x),
            decreases s.len() - i,
        {
            assert(s.take(i + 1).drop_last() =~= s.take(i as int));
            let ghost before = scored@;
            if self.instances[i].state.is_heavy() {
                let key = self.instances[i].priority_score(w, m, 1_800_000, now);
                scored.push((i, self.instances[i].is_pinned, key));
                proof {
                    assert(scored@[before.len() as int].0 == i);
                    assert forall|x: usize| x < i + 1 && s[x as int].state.heavy() implies #[trigger] has_pos(scored@, x) by {
                        if x < i {
                            assert(has_pos(before, x));
                            let k = choose|k: int| 0 <= k < before.len() && before[k].0 == x;
                            assert(scored@[k] == before[k]);
                        } else {
                            assert(scored@[before.len() as int].0 == x);
                        }
                    }
                }
            } else {
                proof {
                    assert forall|x: usize| x < i + 1 && s[x as int].state.heavy() implies #[trigger] has_pos(scored@, x) by {
                        if x < i {
                        } else {
                            assert(false);
                        }
                    }
                }
            }
            i += 1;
        }
        assert(s.take(s.len() as int) =~= s);
        let order = select_lowest(&scored, count);
        let mut ids: Vec<String> = Vec::new();
        let mut k: usize = 0;
        while k < order.len()
            invariant
                s == self@.instances,
                k <= order.len(),
                ids.len() == k,
                forall|a: int| 0 <= a < order.len() ==> #[trigger] order@[a] < scored.len(),
                forall|q: int| 0 <= q < scored.len() ==> (#[trigger] scored@[q]).0 < s.len(),
                forall|a: int| 0 <= a < k ==> (#[trigger] ids@[a])@ == s[scored@[order@[a] as int].0 as int].id@,
            decreases order.len() - k,
        {
            let pos = scored[order[k]].0;
            ids.push(self.instances[pos].id.clone());
            k += 1;
        }
        let ghost nm = names(ids@);
        proof {
            let mm = if max_unread(s) == 0 { 1int } else { max_unread(s) as int };
            assert(mm == m as int);
            assert forall|a: int| 0 <= a < nm.len() implies index_of(s, #[trigger] nm[a]) == scored@[order@[a] as int].0 as int by {
                lemma_index_of_found(s, nm[a], scored@[order@[a] as int].0 as int);
            }
            assert forall|a: int, b: int| 0 <= a < nm.len() && 0 <= b < nm.len() && a != b implies nm[a] != nm[b] by {
                let pa = scored@[order@[a] as int].0 as int;
                let pb = scored@[order@[b] as int].0 as int;
                if order@[a] < order@[b] {
                    assert(scored@[order@[a] as int].0 < scored@[order@[b] as int].0);
                } else {
                    assert(scored@[order@[b] as int].0 < scored@[order@[a] as int].0);
                }
                assert(s[pa].id@ != s[pb].id@);
            }
            assert forall|a: int, x: int|
                0 <= a < nm.len() && 0 <= x < s.len() && s[x].state.heavy() && !nm.contains(s[x].id@) implies demotion_le(
                    s[#[trigger] index_of(s, nm[a])],
                    #[trigger] s[x],
                    w,
                    mm,
                    now as int,
                ) by {
                assert(has_pos(scored@, x as usize));
                let j = choose|j: int| 0 <= j < scored.len() && scored@[j].0 == x as usize;
                if order@.contains(j as usize) {
                    let b = choose|b: int| 0 <= b < order.len() && order@[b] == j as usize;
                    assert(nm[b] == s[x].id@);
                    assert(false);
                }
                assert(entry_le(scored@[order@[a] as int], scored@[j]));
            }
            assert forall|a: int, b: int| 0 <= a < b < nm.len() implies demotion_le(
                s[#[trigger] index_of(s, nm[a])],
                s[#[trigger] index_of(s, nm[b])],
                w,
                mm,
                now as int,
            ) by {
                assert(entry_le(scored@[order@[a] as int], scored@[order@[b] as int]));
            }
            lemma_heavy_count_split(s);
        }
        let mut t: usize = 0;
        while t < ids.len()
            invariant
                t <= ids.len(),
                nm == names(ids@),
                self@ == old(self)@.demoted(nm.take(t as int), now),
                self@.wf(),
            decreases ids.len() - t,
        {
            proof {
                assert(nm.take(t + 1).drop_last() =~= nm.take(t as int));
                assert(nm.take(t + 1).last() == ids@[t as int]@);
            }
            match self.find_index(ids[t].as_str()) {
                Some(p) => {
                    let st = self.instances[p].state;
                    match st {
                        InstanceState::Active => self.transition_to_at(ids[t].as_str(), InstanceState::Warming, now),
                        InstanceState::Warming => self.transition_to_at(ids[t].as_str(), InstanceState::Monitoring, now),
                        _ => {},
                    }
                },
                None => {},
            }
            t += 1;
        }
        assert(nm.take(ids.len() as int) =~= nm);
        ids
    }

    /// Rebalances the pool at time `now`: refreshes the memory estimate and,
    /// when more instances are rendered than `max_active` allows, demotes by
    /// one step as many of the lowest-priority rendered instances as there
    /// are too many. Returns the ids of the demoted instances, lowest first.
    pub fn evaluate_at(&mut self, now: i64) -> (r: Vec<String>)
        requires
            old(self)@.wf(),
        ensures
            evaluated(old(self)@, names(r@), final(self)@, now),
            final(self)@.wf(),
    {
        self.update_memory_estimate();
        let active_count = self.count_state(InstanceState::Active);
        let warm_count = self.count_state(InstanceState::Warming);
        proof {
            lemma_heavy_count_split(self@.instances);
        }
        let total_heavy = active_count + warm_count;
        let capacity = self.config.max_active as usize;
        if total_heavy <= capacity {
            return Vec::new();
        }
        let total_unread = self.total_unread();
        let cap1 = if capacity < 1 { 1 } else { capacity };
        let (_mode, w) = determine_mode(total_heavy, cap1, total_unread);
        let demote_count = total_heavy - capacity;
        self.demote_lowest_at(demote_count, w, now)
    }

    /// Rebalances the pool as of now (see `evaluate_at`).
    pub fn evaluate(&mut self) -> (r: Vec<String>)
        requires
            old(self)@.wf(),
        ensures
            exists|now: i64| #[trigger] evaluated(old(self)@, names(r@), final(self)@, now),
            final(self)@.wf(),
    {
        let now = now_ms();
        self.evaluate_at(now)
    }
}

/// Counts of a pool's instances by state, with its memory figures.
#[derive(Debug, Clone, Copy, PartialEq, Eq, Structural)]
pub struct PoolStats {
    pub active: u32,
    pub warm: u32,
    pub monitor: u32,
    pub frozen: u32,
    pub total: u32,
    pub total_memory_mb: u64,
    pub max_active: u32,
    /// Memory of the machine, in thousandths of a GB.
    pub total_ram_mgb: u64,
}

} // verus!
