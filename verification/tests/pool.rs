use metachat::cloak::config::{compute_max_active, now_ms, PoolConfig};
use metachat::cloak::instance::{CloakInstance, InstanceState, PriorityWeights};
use metachat::cloak::pool::InstancePool;

fn inst(id: &str, state: InstanceState, unread: u32, pinned: bool, last_msg: i64) -> CloakInstance {
    let mut i = CloakInstance::new_at(id.to_string(), format!("acct-{}", id), "whatsapp".to_string(), format!("/tmp/{}", id), 1_000);
    i.state = state;
    i.unread_count = unread;
    i.is_pinned = pinned;
    i.last_message_at = last_msg;
    i
}

fn ids(v: &[String]) -> Vec<&str> {
    v.iter().map(|s| s.as_str()).collect()
}

#[test]
fn default_config_values() {
    let c = PoolConfig::default();
    assert_eq!(c.max_active, 5);
    assert_eq!(c.max_warm, 2);
    assert_eq!(c.max_monitor, 20);
    assert_eq!(c.memory_budget_permille, 750);
    assert_eq!(c.reserve_mgb, 1500);
    assert_eq!(c.per_active_mgb, 400);
    assert_eq!(c.per_monitor_mgb, 35);
    assert_eq!(c.freeze_idle_secs, 1800);
    assert_eq!(c.poll_interval_ms, 10000);
}

#[test]
fn max_active_from_memory() {
    let c = PoolConfig::default();
    // 8 GB: 6 GB budget, 4.5 GB after the reserve, 11 slots, held at 8.
    assert_eq!(compute_max_active(8000, &c), 8);
    // 4 GB: 3 - 1.5 = 1.5 GB, 3 slots.
    assert_eq!(compute_max_active(4000, &c), 3);
    // 2 GB: 1.5 - 1.5 = 0: one slot.
    assert_eq!(compute_max_active(2000, &c), 1);
    let mut z = c;
    z.per_active_mgb = 0;
    assert_eq!(compute_max_active(4000, &z), 8);
}

#[test]
fn clock_is_after_2020() {
    assert!(now_ms() > 1_577_836_800_000);
}

#[test]
fn state_codes() {
    assert_eq!(InstanceState::Offline.numeric(), 0);
    assert_eq!(InstanceState::Frozen.numeric(), 5);
    assert!(InstanceState::Active.is_heavy());
    assert!(InstanceState::Warming.is_heavy());
    assert!(!InstanceState::Monitoring.is_heavy());
    assert!(!InstanceState::Offline.is_alive());
    assert!(!InstanceState::Frozen.is_alive());
    assert!(InstanceState::Connecting.is_alive());
}

#[test]
fn fresh_instance_is_offline() {
    let i = CloakInstance::new("a".to_string(), "b".to_string(), "telegram".to_string(), "/d".to_string());
    assert_eq!(i.state, InstanceState::Offline);
    assert_eq!(i.unread_count, 0);
    assert_eq!(i.created_at, i.updated_at);
    assert_eq!(i.last_activity_at, i.last_message_at);
    assert!(!i.is_pinned);
}

#[test]
fn priority_score_scaled() {
    let i = inst("p", InstanceState::Active, 3, true, 0);
    let w = PriorityWeights { unread: 6, recency: 4, pin: 1 };
    // 6*3*W + 4*m*(W - 600000) + 1*m*W with m = 5, W = 1800000, 10 minutes old.
    let expected: u128 = 6 * 3 * 1_800_000 + 4 * 5 * 1_200_000 + 5 * 1_800_000;
    assert_eq!(i.priority_score(w, 5, 1_800_000, 600_000), expected);
    // older than the window: no recency
    assert_eq!(i.priority_score(w, 5, 1_800_000, 5_000_000), 6 * 3 * 1_800_000 + 5 * 1_800_000);
}

#[test]
fn new_pool_caps_active() {
    let p = InstancePool::new(PoolConfig::default());
    let s = p.stats();
    assert_eq!(s.max_active, 8);
    assert_eq!(s.total, 0);
    assert_eq!(s.total_ram_mgb, 8000);
    assert_eq!(s.total_memory_mb, 0);
}

#[test]
fn add_get_remove() {
    let mut p = InstancePool::new(PoolConfig::default());
    p.add_instance(inst("a", InstanceState::Offline, 0, false, 0));
    p.add_instance(inst("b", InstanceState::Offline, 0, false, 0));
    assert_eq!(p.get_instance("a").unwrap().account_id, "acct-a");
    // replacing keeps one instance per id
    let mut a2 = inst("a", InstanceState::Monitoring, 7, false, 0);
    a2.account_id = "other".to_string();
    p.add_instance(a2);
    assert_eq!(p.instances().len(), 2);
    assert_eq!(p.get_instance("a").unwrap().account_id, "other");
    assert!(p.remove_instance("a"));
    assert!(!p.remove_instance("a"));
    assert!(p.get_instance("a").is_none());
    assert_eq!(p.instances().len(), 1);
}

#[test]
fn get_instance_mut_changes_in_place() {
    let mut p = InstancePool::new(PoolConfig::default());
    p.add_instance(inst("a", InstanceState::Offline, 0, false, 0));
    p.get_instance_mut("a").unwrap().memory_bytes = 42;
    assert_eq!(p.get_instance("a").unwrap().memory_bytes, 42);
    assert!(p.get_instance_mut("zz").is_none());
}

#[test]
fn transition_changes_state_and_stamp() {
    let mut p = InstancePool::new(PoolConfig::default());
    p.add_instance(inst("a", InstanceState::Offline, 0, false, 0));
    p.transition_to_at("a", InstanceState::Active, 5_000);
    let a = p.get_instance("a").unwrap();
    assert_eq!(a.state, InstanceState::Active);
    assert_eq!(a.updated_at, 5_000);
    // same state: nothing changes
    p.transition_to_at("a", InstanceState::Active, 9_000);
    assert_eq!(p.get_instance("a").unwrap().updated_at, 5_000);
    // unknown id: nothing happens
    p.transition_to_at("zz", InstanceState::Active, 9_000);
    assert_eq!(p.instances().len(), 1);
    p.transition_to("a", InstanceState::Frozen);
    assert_eq!(p.get_instance("a").unwrap().state, InstanceState::Frozen);
}

#[test]
fn touch_notify_read_pin() {
    let mut p = InstancePool::new(PoolConfig::default());
    p.add_instance(inst("a", InstanceState::Monitoring, 0, false, 0));
    p.touch_at("a", 7_000);
    assert_eq!(p.get_instance("a").unwrap().last_activity_at, 7_000);
    p.notify_message_at("a", 2, 8_000);
    p.notify_message_at("a", 3, 9_000);
    let a = p.get_instance("a").unwrap();
    assert_eq!(a.unread_count, 5);
    assert_eq!(a.last_message_at, 9_000);
    p.mark_read("a");
    assert_eq!(p.get_instance("a").unwrap().unread_count, 0);
    assert_eq!(p.get_instance("a").unwrap().last_message_at, 9_000);
    p.set_pinned("a", true);
    assert!(p.get_instance("a").unwrap().is_pinned);
    p.touch("a");
    p.notify_message("a", 1);
    assert_eq!(p.get_instance("a").unwrap().unread_count, 1);
}

#[test]
fn promote_monitors_with_three_unread() {
    let mut p = InstancePool::new(PoolConfig::default());
    p.add_instance(inst("a", InstanceState::Monitoring, 3, false, 0));
    p.add_instance(inst("b", InstanceState::Monitoring, 2, false, 0));
    p.add_instance(inst("c", InstanceState::Active, 9, false, 0));
    p.add_instance(inst("d", InstanceState::Monitoring, 10, false, 0));
    let r = p.evaluate_promote_at(100);
    assert_eq!(ids(&r), vec!["a", "d"]);
    assert_eq!(p.get_instance("a").unwrap().state, InstanceState::Warming);
    assert_eq!(p.get_instance("d").unwrap().state, InstanceState::Warming);
    assert_eq!(p.get_instance("b").unwrap().state, InstanceState::Monitoring);
    assert_eq!(p.get_instance("c").unwrap().state, InstanceState::Active);
    assert!(p.evaluate_promote().is_empty());
}

#[test]
fn freeze_idle_monitors() {
    let mut p = InstancePool::new(PoolConfig::default());
    let now = 10_000_000;
    p.add_instance(inst("old", InstanceState::Monitoring, 0, false, now - 1_800_001));
    p.add_instance(inst("edge", InstanceState::Monitoring, 0, false, now - 1_800_000));
    p.add_instance(inst("pinned", InstanceState::Monitoring, 0, true, 0));
    p.add_instance(inst("unread", InstanceState::Monitoring, 1, false, 0));
    p.add_instance(inst("active", InstanceState::Active, 0, false, 0));
    let r = p.evaluate_freeze_at(now);
    assert_eq!(ids(&r), vec!["old"]);
    assert_eq!(p.get_instance("old").unwrap().state, InstanceState::Frozen);
    assert_eq!(p.get_instance("edge").unwrap().state, InstanceState::Monitoring);
    assert_eq!(p.stats().frozen, 1);
    let _ = p.evaluate_freeze();
}

#[test]
fn evaluate_within_capacity_only_refreshes_memory() {
    let mut p = InstancePool::new(PoolConfig::default());
    p.add_instance(inst("a", InstanceState::Active, 0, false, 0));
    p.add_instance(inst("m", InstanceState::Monitoring, 0, false, 0));
    p.add_instance(inst("f", InstanceState::Frozen, 0, false, 0));
    assert!(p.evaluate_at(0).is_empty());
    assert_eq!(p.stats().total_memory_mb, 435);
    assert!(p.evaluate().is_empty());
}

#[test]
fn evaluate_demotes_least_unread_unpinned_first() {
    let mut p = InstancePool::new(PoolConfig::default());
    let mut c = p.config();
    c.max_active = 2;
    p.set_config(c);
    p.add_instance(inst("a", InstanceState::Active, 5, false, 0));
    p.add_instance(inst("b", InstanceState::Active, 1, false, 0));
    p.add_instance(inst("c", InstanceState::Warming, 0, true, 0));
    p.add_instance(inst("d", InstanceState::Warming, 3, false, 0));
    p.add_instance(inst("e", InstanceState::Monitoring, 0, false, 0));
    let r = p.evaluate_at(500);
    // four rendered, two allowed: the two unpinned with the fewest unread
    assert_eq!(ids(&r), vec!["b", "d"]);
    assert_eq!(p.get_instance("b").unwrap().state, InstanceState::Warming);
    assert_eq!(p.get_instance("b").unwrap().updated_at, 500);
    assert_eq!(p.get_instance("d").unwrap().state, InstanceState::Monitoring);
    assert_eq!(p.get_instance("a").unwrap().state, InstanceState::Active);
    assert_eq!(p.get_instance("c").unwrap().state, InstanceState::Warming);
    // 4 rendered and 1 monitoring before the demotion
    assert_eq!(p.stats().total_memory_mb, 4 * 400 + 35);
}

#[test]
fn evaluate_demotes_pinned_last() {
    let mut p = InstancePool::new(PoolConfig::default());
    let mut c = p.config();
    c.max_active = 0;
    p.set_config(c);
    p.add_instance(inst("pin", InstanceState::Active, 0, true, 0));
    p.add_instance(inst("free", InstanceState::Active, 50, false, 0));
    let r = p.evaluate_at(0);
    assert_eq!(ids(&r), vec!["free", "pin"]);
}

#[test]
fn stats_counts_states() {
    let mut p = InstancePool::new(PoolConfig::default());
    p.add_instance(inst("a", InstanceState::Active, 0, false, 0));
    p.add_instance(inst("w", InstanceState::Warming, 0, false, 0));
    p.add_instance(inst("m", InstanceState::Monitoring, 0, false, 0));
    p.add_instance(inst("f", InstanceState::Frozen, 0, false, 0));
    p.add_instance(inst("o", InstanceState::Offline, 0, false, 0));
    let s = p.stats();
    assert_eq!((s.active, s.warm, s.monitor, s.frozen, s.total), (1, 1, 1, 1, 5));
}

#[test]
fn evaluate_returns_lowest_first() {
    let mut p = InstancePool::new(PoolConfig::default());
    let mut c = p.config();
    c.max_active = 1;
    p.set_config(c);
    p.add_instance(inst("a", InstanceState::Active, 0, true, 1_000));
    p.add_instance(inst("b", InstanceState::Active, 5, false, 1_000));
    p.add_instance(inst("c", InstanceState::Warming, 2, false, 1_000));
    let r = p.evaluate_at(2_000);
    assert_eq!(ids(&r), vec!["c", "b"]);
    assert_eq!(p.get_instance("a").unwrap().state, InstanceState::Active);
    assert_eq!(p.get_instance("b").unwrap().state, InstanceState::Warming);
    assert_eq!(p.get_instance("c").unwrap().state, InstanceState::Monitoring);
    assert_eq!(p.pool_memory_mb(), 1200);
}
