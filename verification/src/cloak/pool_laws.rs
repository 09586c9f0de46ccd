//! Laws of the instance pool, stated over its model.

use vstd::prelude::*;
use crate::cloak::instance::{priority_scaled, CloakInstance, InstanceState, PriorityWeights};
use crate::cloak::pool::{
    count_state, demotion_le, evaluated, freezable, freeze_ids, heavy_count, ids_unique, ids_where, index_of,
    lowest_rendered, memory_estimate, mode_for, no_dup, promotable, promote_ids, recency_window_ms, total_unread,
    lemma_index_of_cases, lemma_index_of_found, lookup, with_state, freeze_threshold_ms, PoolModel,
};
use crate::cloak::config::PoolConfig;

verus! {

/// Moving one instance to a state changes that instance alone, and only its
/// state and update time; ids stay where they are.
pub proof fn law_transition_pointwise(m: PoolModel, id: Seq<char>, st: InstanceState, now: i64)
    requires
        m.wf(),
    ensures
        m.transitioned(id, st, now).wf(),
        m.transitioned(id, st, now).instances.len() == m.instances.len(),
        forall|k: int| 0 <= k < m.instances.len() ==> #[trigger] m.transitioned(id, st, now).instances[k] == (
            if m.instances[k].id@ == id && m.instances[k].state != st {
                with_state(m.instances[k], st, now)
            } else {
                m.instances[k]
            }),
        m.transitioned(id, st, now).config == m.config,
        m.transitioned(id, st, now).total_ram_mgb == m.total_ram_mgb,
        m.transitioned(id, st, now).pool_memory_mb == m.pool_memory_mb,
{
    let t = m.transitioned(id, st, now);
    let s = m.instances;
    lemma_index_of_cases(s, id);
    let i = index_of(s, id);
    if i >= 0 {
        assert forall|k: int| 0 <= k < s.len() && k != i implies s[k].id@ != id by {
            assert(s[k].id@ != s[i].id@);
        }
        let u = t.instances;
        assert forall|a: int, b: int| 0 <= a < u.len() && 0 <= b < u.len() && a != b implies #[trigger] u[a].id@ != #[trigger] u[b].id@ by {
            assert(s[a].id@ != s[b].id@);
        }
    }
}

/// Moving a list of instances to a state changes exactly the listed
/// instances that were in another state: each is now in that state, stamped
/// `now`; all else stays.
pub proof fn law_all_transitioned_pointwise(m: PoolModel, ids: Seq<Seq<char>>, st: InstanceState, now: i64)
    requires
        m.wf(),
    ensures
        m.all_transitioned(ids, st, now).wf(),
        m.all_transitioned(ids, st, now).instances.len() == m.instances.len(),
        forall|k: int| 0 <= k < m.instances.len() ==> #[trigger] m.all_transitioned(ids, st, now).instances[k] == (
            if ids.contains(m.instances[k].id@) && m.instances[k].state != st {
                with_state(m.instances[k], st, now)
            } else {
                m.instances[k]
            }),
        m.all_transitioned(ids, st, now).config == m.config,
        m.all_transitioned(ids, st, now).pool_memory_mb == m.pool_memory_mb,
        m.all_transitioned(ids, st, now).total_ram_mgb == m.total_ram_mgb,
    decreases ids.len(),
{
    if ids.len() > 0 {
        let p = m.all_transitioned(ids.drop_last(), st, now);
        law_all_transitioned_pointwise(m, ids.drop_last(), st, now);
        law_transition_pointwise(p, ids.last(), st, now);
        assert forall|k: int| 0 <= k < m.instances.len() implies #[trigger] m.all_transitioned(ids, st, now).instances[k] == (
            if ids.contains(m.instances[k].id@) && m.instances[k].state != st {
                with_state(m.instances[k], st, now)
            } else {
                m.instances[k]
            }) by {
            let x = m.instances[k].id@;
            if ids.drop_last().contains(x) {
                let j = choose|j: int| 0 <= j < ids.drop_last().len() && ids.drop_last()[j] == x;
                assert(ids[j] == x);
            }
            if ids.contains(x) && !ids.drop_last().contains(x) {
                let j = choose|j: int| 0 <= j < ids.len() && ids[j] == x;
                if j < ids.len() - 1 {
                    assert(ids.drop_last()[j] == x);
                }
            }
        }
    }
}

/// `ids_where` holds exactly the ids of the instances that satisfy the predicate.
proof fn lemma_ids_where(s: Seq<CloakInstance>, p: spec_fn(CloakInstance) -> bool)
    requires
        ids_unique(s),
    ensures
        forall|k: int| 0 <= k < s.len() ==> (ids_where(s, p).contains(#[trigger] s[k].id@) <==> p(s[k])),
    decreases s.len(),
{
    if s.len() > 0 {
        let d = s.drop_last();
        assert(ids_unique(d)) by {
            assert forall|a: int, b: int| 0 <= a < d.len() && 0 <= b < d.len() && a != b implies #[trigger] d[a].id@ != #[trigger] d[b].id@ by {
                assert(s[a].id@ != s[b].id@);
            }
        }
        lemma_ids_where(d, p);
        assert forall|k: int| 0 <= k < s.len() implies (ids_where(s, p).contains(#[trigger] s[k].id@) <==> p(s[k])) by {
            let last = s.len() - 1;
            if k < last {
                assert(s[k] == d[k]);
                assert(s[k].id@ != s[last].id@);
                if ids_where(s, p).contains(s[k].id@) {
                    let j = choose|j: int| 0 <= j < ids_where(s, p).len() && ids_where(s, p)[j] == s[k].id@;
                    if p(s.last()) && j == ids_where(d, p).len() {
                        assert(false);
                    } else {
                        assert(ids_where(d, p)[j] == s[k].id@);
                    }
                }
                if p(s[k]) {
                    let j = choose|j: int| 0 <= j < ids_where(d, p).len() && ids_where(d, p)[j] == s[k].id@;
                    if p(s.last()) {
                        assert(ids_where(s, p)[j] == s[k].id@);
                    }
                }
            } else {
                if p(s[k]) {
                    assert(ids_where(s, p)[ids_where(d, p).len() as int] == s[k].id@);
                } else {
                    if ids_where(s, p).contains(s[k].id@) {
                        let j = choose|j: int| 0 <= j < ids_where(d, p).len() && ids_where(d, p)[j] == s[k].id@;
                        lemma_ids_where_in(d, p, j);
                        let q = choose|q: int| 0 <= q < d.len() && d[q].id@ == ids_where(d, p)[j];
                        assert(s[q].id@ != s[k].id@);
                    }
                }
            }
        }
    }
}

proof fn lemma_ids_where_in(s: Seq<CloakInstance>, p: spec_fn(CloakInstance) -> bool, j: int)
    requires
        0 <= j < ids_where(s, p).len(),
    ensures
        exists|q: int| 0 <= q < s.len() && s[q].id@ == ids_where(s, p)[j],
    decreases s.len(),
{
    if s.len() > 0 {
        let d = s.drop_last();
        if p(s.last()) && j == ids_where(d, p).len() {
            assert(s[s.len() - 1].id@ == ids_where(s, p)[j]);
        } else {
            lemma_ids_where_in(d, p, j);
            let q = choose|q: int| 0 <= q < d.len() && d[q].id@ == ids_where(d, p)[j];
            assert(s[q].id@ == ids_where(s, p)[j]);
        }
    }
}

/// After promotion every promotable instance (monitoring, three or more
/// unread) is warming, stamped with the promotion time, and every other
/// instance is as it was.
pub proof fn law_promote_moves_exactly_promotable(m: PoolModel, now: i64)
    requires
        m.wf(),
    ensures
        ({
            let f = m.all_transitioned(promote_ids(m.instances), InstanceState::Warming, now);
            &&& f.wf()
            &&& f.instances.len() == m.instances.len()
            &&& forall|k: int| 0 <= k < m.instances.len() ==> #[trigger] f.instances[k] == (
                if promotable(m.instances[k]) {
                    with_state(m.instances[k], InstanceState::Warming, now)
                } else {
                    m.instances[k]
                })
        }),
{
    lemma_ids_where(m.instances, |inst: CloakInstance| promotable(inst));
    law_all_transitioned_pointwise(m, promote_ids(m.instances), InstanceState::Warming, now);
}

proof fn lemma_ids_where_no_dup(s: Seq<CloakInstance>, p: spec_fn(CloakInstance) -> bool)
    requires
        ids_unique(s),
    ensures
        no_dup(ids_where(s, p)),
    decreases s.len(),
{
    if s.len() > 0 {
        let d = s.drop_last();
        assert(ids_unique(d)) by {
            assert forall|a: int, b: int| 0 <= a < d.len() && 0 <= b < d.len() && a != b implies #[trigger] d[a].id@ != #[trigger] d[b].id@ by {
                assert(s[a].id@ != s[b].id@);
            }
        }
        lemma_ids_where_no_dup(d, p);
        if p(s.last()) {
            let t = ids_where(s, p);
            let n = ids_where(d, p).len();
            assert forall|a: int, b: int| 0 <= a < t.len() && 0 <= b < t.len() && a != b implies t[a] != t[b] by {
                if a == n || b == n {
                    let o = if a == n { b } else { a };
                    lemma_ids_where_in(d, p, o);
                    let q = choose|q: int| 0 <= q < d.len() && d[q].id@ == ids_where(d, p)[o];
                    assert(s[q].id@ != s[s.len() - 1].id@);
                }
            }
        }
    }
}

proof fn lemma_ids_where_none(s: Seq<CloakInstance>, p: spec_fn(CloakInstance) -> bool)
    requires
        forall|k: int| 0 <= k < s.len() ==> !p(#[trigger] s[k]),
    ensures
        ids_where(s, p).len() == 0,
    decreases s.len(),
{
    if s.len() > 0 {
        let d = s.drop_last();
        assert forall|k: int| 0 <= k < d.len() implies !p(#[trigger] d[k]) by {
            assert(d[k] == s[k]);
        }
        lemma_ids_where_none(d, p);
        assert(!p(s[s.len() - 1]));
    }
}

/// Promotion names each promoted instance once, and promoting again right
/// after promotes nothing: no instance is left promotable.
pub proof fn law_promote_once(m: PoolModel, now: i64)
    requires
        m.wf(),
    ensures
        no_dup(promote_ids(m.instances)),
        promote_ids(m.all_transitioned(promote_ids(m.instances), InstanceState::Warming, now).instances).len() == 0,
{
    lemma_ids_where_no_dup(m.instances, |inst: CloakInstance| promotable(inst));
    law_promote_moves_exactly_promotable(m, now);
    let f = m.all_transitioned(promote_ids(m.instances), InstanceState::Warming, now);
    assert forall|k: int| 0 <= k < f.instances.len() implies !promotable(#[trigger] f.instances[k]) by {
        assert(f.instances[k] == (if promotable(m.instances[k]) {
            with_state(m.instances[k], InstanceState::Warming, now)
        } else {
            m.instances[k]
        }));
    }
    lemma_ids_where_none(f.instances, |inst: CloakInstance| promotable(inst));
}

/// After freezing at `now` with threshold `threshold_ms`, every freezable
/// instance (unpinned, monitoring, nothing unread, last message older than
/// the threshold) is frozen, stamped `now`, and every other instance is as
/// it was.
pub proof fn law_freeze_moves_exactly_freezable(m: PoolModel, now: i64, threshold_ms: int)
    requires
        m.wf(),
    ensures
        ({
            let f = m.all_transitioned(freeze_ids(m.instances, now as int, threshold_ms), InstanceState::Frozen, now);
            &&& f.wf()
            &&& f.instances.len() == m.instances.len()
            &&& forall|k: int| 0 <= k < m.instances.len() ==> #[trigger] f.instances[k] == (
                if freezable(m.instances[k], now as int, threshold_ms) {
                    with_state(m.instances[k], InstanceState::Frozen, now)
                } else {
                    m.instances[k]
                })
        }),
{
    lemma_ids_where(m.instances, |inst: CloakInstance| freezable(inst, now as int, threshold_ms));
    law_all_transitioned_pointwise(m, freeze_ids(m.instances, now as int, threshold_ms), InstanceState::Frozen, now);
}

/// Promotion is decided by state and unread count alone, whatever the pin:
/// the returned ids are exactly those of the monitoring instances with at
/// least three unread messages, each naming an instance of the pool; those
/// instances become warming, stamped `now`, and keep every other field;
/// every other instance stays as it was.
pub proof fn law_promote_by_state_and_unread(m: PoolModel, now: i64)
    requires
        m.wf(),
    ensures
        ({
            let s = m.instances;
            let r = promote_ids(s);
            let f = m.all_transitioned(r, InstanceState::Warming, now);
            &&& f.instances.len() == s.len()
            &&& forall|k: int| #![trigger s[k]] 0 <= k < s.len() ==> (r.contains(s[k].id@) <==> (s[k].state
                == InstanceState::Monitoring && s[k].unread_count >= 3))
            &&& forall|k: int| #![trigger f.instances[k]] 0 <= k < s.len() && s[k].state == InstanceState::Monitoring
                && s[k].unread_count >= 3 ==> f.instances[k] == (CloakInstance {
                state: InstanceState::Warming,
                updated_at: now,
                ..s[k]
            })
            &&& forall|k: int| #![trigger f.instances[k]] 0 <= k < s.len() && !(s[k].state == InstanceState::Monitoring
                && s[k].unread_count >= 3) ==> f.instances[k] == s[k]
            &&& forall|j: int| #![trigger r[j]] 0 <= j < r.len() ==> exists|k: int| 0 <= k < s.len() && s[k].id@ == r[j]
                && s[k].state == InstanceState::Monitoring && s[k].unread_count >= 3
        }),
{
    let s = m.instances;
    let r = promote_ids(s);
    let p = |inst: CloakInstance| promotable(inst);
    law_promote_moves_exactly_promotable(m, now);
    lemma_ids_where(s, p);
    assert forall|j: int| #![trigger r[j]] 0 <= j < r.len() implies exists|k: int| 0 <= k < s.len() && s[k].id@ == r[j]
        && s[k].state == InstanceState::Monitoring && s[k].unread_count >= 3 by {
        lemma_ids_where_in(s, p, j);
        let q = choose|q: int| 0 <= q < s.len() && s[q].id@ == ids_where(s, p)[j];
        assert(r.contains(s[q].id@));
        assert(p(s[q]));
    }
}

/// Freezing changes only idle monitoring instances: the returned ids are
/// exactly those of the unpinned monitoring instances with nothing unread
/// whose last message is older than the threshold, each naming an instance
/// of the pool; those become frozen, stamped `now`, and keep every other
/// field; every other instance, in particular every warming or active one,
/// stays as it was and is not returned.
pub proof fn law_freeze_only_idle_monitoring(m: PoolModel, now: i64, threshold_ms: int)
    requires
        m.wf(),
    ensures
        ({
            let s = m.instances;
            let r = freeze_ids(s, now as int, threshold_ms);
            let f = m.all_transitioned(r, InstanceState::Frozen, now);
            &&& f.instances.len() == s.len()
            &&& forall|k: int| #![trigger s[k]] 0 <= k < s.len() ==> (r.contains(s[k].id@) <==> (s[k].state
                == InstanceState::Monitoring && !s[k].is_pinned && s[k].unread_count == 0 && now - s[k].last_message_at
                > threshold_ms))
            &&& forall|k: int| #![trigger f.instances[k]] 0 <= k < s.len() && s[k].state == InstanceState::Monitoring
                && !s[k].is_pinned && s[k].unread_count == 0 && now - s[k].last_message_at > threshold_ms
                ==> f.instances[k] == (CloakInstance { state: InstanceState::Frozen, updated_at: now, ..s[k] })
            &&& forall|k: int| #![trigger f.instances[k]] 0 <= k < s.len() && !(s[k].state == InstanceState::Monitoring
                && !s[k].is_pinned && s[k].unread_count == 0 && now - s[k].last_message_at > threshold_ms)
                ==> f.instances[k] == s[k]
            &&& forall|k: int| #![trigger f.instances[k]] 0 <= k < s.len() && s[k].state != InstanceState::Monitoring
                ==> f.instances[k] == s[k] && !r.contains(s[k].id@)
            &&& forall|j: int| #![trigger r[j]] 0 <= j < r.len() ==> exists|k: int| 0 <= k < s.len() && s[k].id@ == r[j]
                && s[k].state == InstanceState::Monitoring
        }),
{
    let s = m.instances;
    let r = freeze_ids(s, now as int, threshold_ms);
    let p = |inst: CloakInstance| freezable(inst, now as int, threshold_ms);
    law_freeze_moves_exactly_freezable(m, now, threshold_ms);
    lemma_ids_where(s, p);
    assert forall|k: int| #![trigger s[k]] 0 <= k < s.len() && s[k].state != InstanceState::Monitoring
        implies !r.contains(s[k].id@) by {
        assert(!p(s[k]));
    }
    assert forall|j: int| #![trigger r[j]] 0 <= j < r.len() implies exists|k: int| 0 <= k < s.len() && s[k].id@ == r[j]
        && s[k].state == InstanceState::Monitoring by {
        lemma_ids_where_in(s, p, j);
        let q = choose|q: int| 0 <= q < s.len() && s[q].id@ == ids_where(s, p)[j];
        assert(r.contains(s[q].id@));
        assert(p(s[q]));
    }
}

/// One demotion step: active to warming, warming to monitoring, stamped `now`.
pub open spec fn demote_step(inst: CloakInstance, now: i64) -> CloakInstance {
    if inst.state == InstanceState::Active {
        with_state(inst, InstanceState::Warming, now)
    } else if inst.state == InstanceState::Warming {
        with_state(inst, InstanceState::Monitoring, now)
    } else {
        inst
    }
}

/// Demoting a list of distinct ids steps each listed instance down once and
/// leaves every other instance as it was.
pub proof fn law_demoted_pointwise(m: PoolModel, ids: Seq<Seq<char>>, now: i64)
    requires
        m.wf(),
        no_dup(ids),
    ensures
        m.demoted(ids, now).wf(),
        m.demoted(ids, now).instances.len() == m.instances.len(),
        forall|k: int| 0 <= k < m.instances.len() ==> #[trigger] m.demoted(ids, now).instances[k] == (
            if ids.contains(m.instances[k].id@) {
                demote_step(m.instances[k], now)
            } else {
                m.instances[k]
            }),
        m.demoted(ids, now).config == m.config,
        m.demoted(ids, now).pool_memory_mb == m.pool_memory_mb,
        m.demoted(ids, now).total_ram_mgb == m.total_ram_mgb,
    decreases ids.len(),
{
    if ids.len() > 0 {
        let d = ids.drop_last();
        assert(no_dup(d)) by {
            assert forall|i: int, j: int| 0 <= i < d.len() && 0 <= j < d.len() && i != j implies d[i] != d[j] by {
                assert(ids[i] != ids[j]);
            }
        }
        let p = m.demoted(d, now);
        law_demoted_pointwise(m, d, now);
        let x = ids.last();
        lemma_index_of_cases(p.instances, x);
        let i = index_of(p.instances, x);
        if i >= 0 {
            if p.instances[i].state == InstanceState::Active {
                law_transition_pointwise(p, x, InstanceState::Warming, now);
            } else if p.instances[i].state == InstanceState::Warming {
                law_transition_pointwise(p, x, InstanceState::Monitoring, now);
            }
        }
        assert forall|k: int| 0 <= k < m.instances.len() implies #[trigger] m.demoted(ids, now).instances[k] == (
            if ids.contains(m.instances[k].id@) {
                demote_step(m.instances[k], now)
            } else {
                m.instances[k]
            }) by {
            let y = m.instances[k].id@;
            assert(p.instances[k].id@ == y);
            if y == x {
                assert(i == k) by {
                    lemma_index_of_found(p.instances, x, k);
                }
                if d.contains(y) {
                    let j = choose|j: int| 0 <= j < d.len() && d[j] == y;
                    assert(ids[j] == ids[ids.len() - 1]);
                }
                assert(ids[ids.len() - 1] == y);
            } else {
                if d.contains(y) {
                    let j = choose|j: int| 0 <= j < d.len() && d[j] == y;
                    assert(ids[j] == y);
                }
                if ids.contains(y) {
                    let j = choose|j: int| 0 <= j < ids.len() && ids[j] == y;
                    assert(d[j] == y);
                }
                if i >= 0 {
                    assert(k != i);
                }
            }
        }
    }
}

/// What rebalancing does. Where no more instances are rendered than
/// `max_active`, nothing is demoted and the instances stay as they were.
/// Otherwise: exactly the surplus is demoted; each demoted instance steps
/// down once and every other instance stays; the scores use the
/// unread-only weights; a pinned instance is demoted only once every
/// rendered unpinned instance is; among instances of the same pin, a
/// demoted one never has more unread messages than one that stays rendered;
/// and the ids come lowest first: unpinned before pinned, and among the same
/// pin, fewer unread messages first.
pub proof fn law_evaluate_effect(old: PoolModel, r: Seq<Seq<char>>, new: PoolModel, now: i64)
    requires
        old.wf(),
        evaluated(old, r, new, now),
    ensures
        ({
            let s = old.instances;
            let heavy = (count_state(s, InstanceState::Active) + count_state(s, InstanceState::Warming)) as int;
            let cap = old.config.max_active as int;
            &&& heavy <= cap ==> r.len() == 0 && new.instances == s
            &&& heavy > cap ==> {
                &&& r.len() == heavy - cap
                &&& mode_for(heavy, if cap < 1 { 1 } else { cap }, total_unread(s) as int).1 == (PriorityWeights { unread: 10, recency: 0, pin: 1 })
                &&& new.instances.len() == s.len()
                &&& forall|k: int| 0 <= k < s.len() ==> #[trigger] new.instances[k] == (
                    if r.contains(s[k].id@) { demote_step(s[k], now) } else { s[k] })
                &&& forall|a: int, i: int|
                    0 <= a < r.len() && 0 <= i < s.len() && s[i].state.heavy() && !r.contains(s[i].id@) ==> {
                        &&& s[#[trigger] index_of(s, r[a])].is_pinned ==> (#[trigger] s[i]).is_pinned
                        &&& s[index_of(s, r[a])].is_pinned == s[i].is_pinned ==> s[index_of(s, r[a])].unread_count <= s[i].unread_count
                    }
                &&& forall|a: int, b: int|
                    0 <= a < b < r.len() ==> {
                        &&& s[#[trigger] index_of(s, r[a])].is_pinned ==> s[#[trigger] index_of(s, r[b])].is_pinned
                        &&& s[index_of(s, r[a])].is_pinned == s[index_of(s, r[b])].is_pinned ==> s[index_of(s, r[a])].unread_count <= s[index_of(s, r[b])].unread_count
                    }
            }
        }),
{
    let s = old.instances;
    let heavy = (count_state(s, InstanceState::Active) + count_state(s, InstanceState::Warming)) as int;
    let cap = old.config.max_active as int;
    let refreshed = PoolModel { pool_memory_mb: memory_estimate(s) as u64, ..old };
    crate::cloak::pool::lemma_heavy_count_split(s);
    if heavy > cap {
        let w = mode_for(heavy, if cap < 1 { 1 } else { cap }, total_unread(s) as int).1;
        assert(w == PriorityWeights { unread: 10, recency: 0, pin: 1 });
        law_demoted_pointwise(refreshed, r, now);
        let mm = if crate::cloak::pool::max_unread(s) == 0 { 1int } else { crate::cloak::pool::max_unread(s) as int };
        assert forall|a: int, i: int|
            0 <= a < r.len() && 0 <= i < s.len() && s[i].state.heavy() && !r.contains(s[i].id@) implies {
                &&& s[#[trigger] index_of(s, r[a])].is_pinned ==> (#[trigger] s[i]).is_pinned
                &&& s[index_of(s, r[a])].is_pinned == s[i].is_pinned ==> s[index_of(s, r[a])].unread_count <= s[i].unread_count
            } by {
            let da = s[index_of(s, r[a])];
            let di = s[i];
            assert(demotion_le(da, di, w, mm, now as int));
            if da.is_pinned == di.is_pinned {
                let win = recency_window_ms();
                let pa = priority_scaled(da, w, mm, win, now as int);
                let pi = priority_scaled(di, w, mm, win, now as int);
                let ua = da.unread_count as int;
                let ui = di.unread_count as int;
                let pin = if da.is_pinned { mm * win } else { 0 };
                assert(pa == 10 * ua * win + pin);
                assert(pi == 10 * ui * win + pin);
                assert(ua <= ui) by (nonlinear_arith)
                    requires 10 * ua * win + pin <= 10 * ui * win + pin, win > 0;
            }
        }
        assert forall|a: int, b: int| 0 <= a < b < r.len() implies {
                &&& s[#[trigger] index_of(s, r[a])].is_pinned ==> s[#[trigger] index_of(s, r[b])].is_pinned
                &&& s[index_of(s, r[a])].is_pinned == s[index_of(s, r[b])].is_pinned ==> s[index_of(s, r[a])].unread_count <= s[index_of(s, r[b])].unread_count
            } by {
            let da = s[index_of(s, r[a])];
            let db = s[index_of(s, r[b])];
            assert(demotion_le(da, db, w, mm, now as int));
            if da.is_pinned == db.is_pinned {
                let win = recency_window_ms();
                let pa = priority_scaled(da, w, mm, win, now as int);
                let pb = priority_scaled(db, w, mm, win, now as int);
                let ua = da.unread_count as int;
                let ub = db.unread_count as int;
                let pin = if da.is_pinned { mm * win } else { 0 };
                assert(pa == 10 * ua * win + pin);
                assert(pb == 10 * ub * win + pin);
                assert(ua <= ub) by (nonlinear_arith)
                    requires 10 * ua * win + pin <= 10 * ub * win + pin, win > 0;
            }
        }
    }
}

/// A stored instance is found under its id, and storing it leaves every
/// other id's instance as it was.
pub proof fn law_lookup_after_add(m: PoolModel, inst: CloakInstance, x: Seq<char>)
    requires
        m.wf(),
        index_of(m.instances, inst.id@) < 0 ==> m.instances.len() < u32::MAX,
    ensures
        m.added(inst).wf(),
        lookup(m.added(inst).instances, inst.id@) == Some(inst),
        x != inst.id@ ==> lookup(m.added(inst).instances, x) == lookup(m.instances, x),
{
    let s = m.instances;
    let t = m.added(inst).instances;
    lemma_index_of_cases(s, inst.id@);
    lemma_index_of_cases(s, x);
    let i = index_of(s, inst.id@);
    assert(ids_unique(t)) by {
        assert forall|a: int, b: int| 0 <= a < t.len() && 0 <= b < t.len() && a != b implies #[trigger] t[a].id@ != #[trigger] t[b].id@ by {
            if i >= 0 {
                if a != i && b != i {
                    assert(s[a].id@ != s[b].id@);
                } else if a == i {
                    assert(s[b].id@ != s[i].id@);
                } else {
                    assert(s[a].id@ != s[i].id@);
                }
            } else {
                if a < s.len() && b < s.len() {
                    assert(s[a].id@ != s[b].id@);
                }
            }
        }
    }
    let j = if i >= 0 { i } else { s.len() as int };
    assert(t[j] == inst);
    lemma_index_of_found(t, inst.id@, j);
    if x != inst.id@ {
        let xi = index_of(s, x);
        if xi >= 0 {
            assert(t[xi] == s[xi]);
            lemma_index_of_found(t, x, xi);
        } else {
            assert forall|k: int| 0 <= k < t.len() implies #[trigger] t[k].id@ != x by {
                if k < s.len() && k != i {
                    assert(t[k] == s[k]);
                }
            }
        }
    }
}

/// After removal nothing is found under the removed id, and every other
/// id's instance is as it was.
pub proof fn law_lookup_after_remove(m: PoolModel, id: Seq<char>, x: Seq<char>)
    requires
        m.wf(),
    ensures
        m.removed(id).wf(),
        lookup(m.removed(id).instances, id) is None,
        x != id ==> lookup(m.removed(id).instances, x) == lookup(m.instances, x),
{
    let s = m.instances;
    let t = m.removed(id).instances;
    lemma_index_of_cases(s, id);
    lemma_index_of_cases(s, x);
    let i = index_of(s, id);
    if i >= 0 {
        assert forall|k: int| 0 <= k < t.len() implies t[k] == s[if k < i { k } else { k + 1 }] by {}
        assert(ids_unique(t)) by {
            assert forall|a: int, b: int| 0 <= a < t.len() && 0 <= b < t.len() && a != b implies #[trigger] t[a].id@ != #[trigger] t[b].id@ by {
                let a2 = if a < i { a } else { a + 1 };
                let b2 = if b < i { b } else { b + 1 };
                assert(s[a2].id@ != s[b2].id@);
            }
        }
        assert forall|k: int| 0 <= k < t.len() implies #[trigger] t[k].id@ != id by {
            let k2 = if k < i { k } else { k + 1 };
            assert(s[k2].id@ != s[i].id@);
        }
        if x != id {
            let xi = index_of(s, x);
            if xi >= 0 {
                let xj = if xi < i { xi } else { xi - 1 };
                assert(t[xj] == s[xi]);
                lemma_index_of_found(t, x, xj);
            } else {
                assert forall|k: int| 0 <= k < t.len() implies #[trigger] t[k].id@ != x by {
                    let k2 = if k < i { k } else { k + 1 };
                    assert(t[k] == s[k2]);
                }
            }
        }
    }
}

/// Marking an instance read undoes the unread count that new messages
/// added; the time of the last message stays.
pub proof fn law_mark_read_clears_notified(m: PoolModel, id: Seq<char>, count: u32, now: i64)
    requires
        m.wf(),
        lookup(m.instances, id) is Some,
    ensures
        lookup(m.notified(id, count, now).read_marked(id).instances, id) == Some(
            CloakInstance { unread_count: 0, last_message_at: now, ..lookup(m.instances, id).unwrap() },
        ),
{
    let s = m.instances;
    lemma_index_of_cases(s, id);
    let i = index_of(s, id);
    let n = m.notified(id, count, now);
    assert(n.instances[i].id@ == id);
    lemma_update_unique(s, i, n.instances[i]);
    lemma_index_of_found(n.instances, id, i);
    let r = n.read_marked(id);
    lemma_update_unique(n.instances, i, r.instances[i]);
    lemma_index_of_found(r.instances, id, i);
}

proof fn lemma_update_unique(s: Seq<CloakInstance>, i: int, inst: CloakInstance)
    requires
        ids_unique(s),
        0 <= i < s.len(),
        inst.id@ == s[i].id@,
    ensures
        ids_unique(s.update(i, inst)),
{
    let t = s.update(i, inst);
    assert forall|a: int, b: int| 0 <= a < t.len() && 0 <= b < t.len() && a != b implies #[trigger] t[a].id@ != #[trigger] t[b].id@ by {
        assert(s[a].id@ != s[b].id@);
    }
}

proof fn lemma_counts_sum(s: Seq<CloakInstance>)
    ensures
        count_state(s, InstanceState::Offline) + count_state(s, InstanceState::Connecting) + count_state(
            s,
            InstanceState::Monitoring,
        ) + count_state(s, InstanceState::Warming) + count_state(s, InstanceState::Active) + count_state(
            s,
            InstanceState::Frozen,
        ) == s.len(),
    decreases s.len(),
{
    if s.len() > 0 {
        lemma_counts_sum(s.drop_last());
    }
}

/// The per-state counts of the statistics never exceed the total: every
/// instance is in exactly one state.
pub proof fn law_state_counts_partition(s: Seq<CloakInstance>)
    ensures
        count_state(s, InstanceState::Active) + count_state(s, InstanceState::Warming) + count_state(
            s,
            InstanceState::Monitoring,
        ) + count_state(s, InstanceState::Frozen) <= s.len(),
        memory_estimate(s) <= 400 * s.len(),
    decreases s.len(),
{
    lemma_counts_sum(s);
    if s.len() > 0 {
        law_state_counts_partition(s.drop_last());
    }
}

/// The memory estimate is 400 MB for each active or warming instance and
/// 35 MB for each monitoring one; other instances take nothing.
pub proof fn law_memory_estimate_by_states(s: Seq<CloakInstance>)
    ensures
        memory_estimate(s) == 400 * (count_state(s, InstanceState::Active) + count_state(s, InstanceState::Warming))
            + 35 * count_state(s, InstanceState::Monitoring),
    decreases s.len(),
{
    if s.len() > 0 {
        law_memory_estimate_by_states(s.drop_last());
    }
}

/// The freeze threshold is the configured idle time in milliseconds
/// (`freeze_idle_secs * 1000`) whenever that fits in an `i64`.
pub proof fn law_freeze_threshold(c: PoolConfig)
    requires
        c.freeze_idle_secs * 1000 <= i64::MAX,
    ensures
        freeze_threshold_ms(c) == c.freeze_idle_secs * 1000,
{
}

} // verus!
