//! One browser instance and the states it moves through.

use vstd::prelude::*;
use crate::cloak::config::now_ms;

verus! {

/// Lifecycle state of a browser instance.
#[derive(Debug, Clone, Copy, PartialEq, Eq, Structural)]
pub enum InstanceState {
    /// Not started: only the stored metadata exists.
    Offline,
    /// The debugging handshake is under way.
    Connecting,
    /// Headless, listening for messages only.
    Monitoring,
    /// Fully rendered but hidden, ready for an instant switch.
    Warming,
    /// Fully rendered and shown to the user.
    Active,
    /// Process stopped, cookies kept in storage.
    Frozen,
}

impl InstanceState {
    /// The numeric code of a state: 0 to 5 in declaration order.
    pub open spec fn code(self) -> u8 {
        match self {
            InstanceState::Offline => 0,
            InstanceState::Connecting => 1,
            InstanceState::Monitoring => 2,
            InstanceState::Warming => 3,
            InstanceState::Active => 4,
            InstanceState::Frozen => 5,
        }
    }

    /// A heavy state holds a fully rendered browser.
    pub open spec fn heavy(self) -> bool {
        self == InstanceState::Active || self == InstanceState::Warming
    }

    /// An alive state holds a running process.
    pub open spec fn alive(self) -> bool {
        !(self == InstanceState::Offline || self == InstanceState::Frozen)
    }

    pub fn numeric(&self) -> (r: u8)
        ensures
            r == self.code(),
    {
        match self {
            InstanceState::Offline => 0,
            InstanceState::Connecting => 1,
            InstanceState::Monitoring => 2,
            InstanceState::Warming => 3,
            InstanceState::Active => 4,
            InstanceState::Frozen => 5,
        }
    }

    /// Whether the state uses a large amount of memory.
    pub fn is_heavy(&self) -> (r: bool)
        ensures
            r == self.heavy(),
    {
        match self {
            InstanceState::Active | InstanceState::Warming => true,
            _ => false,
        }
    }

    /// Whether the state uses any resources at all.
    pub fn is_alive(&self) -> (r: bool)
        ensures
            r == self.alive(),
    {
        match self {
            InstanceState::Offline | InstanceState::Frozen => false,
            _ => true,
        }
    }
}

/// One browser instance, bound to one account.
#[derive(Debug)]
pub struct CloakInstance {
    pub id: String,
    pub account_id: String,
    pub platform: String,
    pub state: InstanceState,
    pub process_id: Option<u32>,
    pub cdp_port: Option<u16>,
    pub memory_bytes: u64,
    pub unread_count: u32,
    /// Last interaction of the user, in ms since the epoch.
    pub last_activity_at: i64,
    /// Last incoming message, in ms since the epoch.
    pub last_message_at: i64,
    pub is_pinned: bool,
    pub user_data_dir: String,
    pub cookies: Option<Vec<u8>>,
    pub created_at: i64,
    pub updated_at: i64,
}

/// Weights of the priority score, in tenths: of the unread share, of the
/// recency of the last message, and of the pin.
#[derive(Debug, Clone, Copy, PartialEq, Eq, Structural)]
pub struct PriorityWeights {
    pub unread: u16,
    pub recency: u16,
    pub pin: u16,
}

/// The recency of the last message on a scale of `window_ms`: the whole
/// window for a message that arrives now, falling linearly to 0 once the
/// window has passed, and held at the window for messages stamped in the
/// future.
pub open spec fn recency_part(last_message_at: int, window_ms: int, now: int) -> int {
    let rem = window_ms - (now - last_message_at);
    if rem < 0 {
        0
    } else if rem > window_ms {
        window_ms
    } else {
        rem
    }
}

/// The priority score `α·unread/max_unread + β·recency + γ·pin` of an
/// instance, with recency the fraction `recency_part / window_ms`, multiplied
/// by `10 · max_unread · window_ms` so that it is an integer (the weights are
/// in tenths). Scores of instances compared with the same `max_unread` and
/// window are ordered as the unscaled scores are.
pub open spec fn priority_scaled(
    inst: CloakInstance,
    w: PriorityWeights,
    max_unread: int,
    window_ms: int,
    now: int,
) -> int {
    w.unread * inst.unread_count * window_ms + w.recency * max_unread * recency_part(
        inst.last_message_at as int,
        window_ms,
        now,
    ) + (if inst.is_pinned { w.pin * max_unread * window_ms } else { 0 })
}

impl CloakInstance {
    /// A fresh, offline instance whose timestamps all read `now`.
    pub open spec fn fresh(id: String, account_id: String, platform: String, user_data_dir: String, now: i64) -> CloakInstance {
        CloakInstance {
            id,
            account_id,
            platform,
            state: InstanceState::Offline,
            process_id: None,
            cdp_port: None,
            memory_bytes: 0,
            unread_count: 0,
            last_activity_at: now,
            last_message_at: now,
            is_pinned: false,
            user_data_dir,
            cookies: None,
            created_at: now,
            updated_at: now,
        }
    }

    /// A fresh, offline instance created at time `now`.
    pub fn new_at(id: String, account_id: String, platform: String, user_data_dir: String, now: i64) -> (r: Self)
        ensures
            r == CloakInstance::fresh(id, account_id, platform, user_data_dir, now),
    {
        CloakInstance {
            id,
            account_id,
            platform,
            state: InstanceState::Offline,
            process_id: None,
            cdp_port: None,
            memory_bytes: 0,
            unread_count: 0,
            last_activity_at: now,
            last_message_at: now,
            is_pinned: false,
            user_data_dir,
            cookies: None,
            created_at: now,
            updated_at: now,
        }
    }

    /// A fresh, offline instance created at the current time.
    pub fn new(id: String, account_id: String, platform: String, user_data_dir: String) -> (r: Self)
        ensures
            exists|now: i64| r == CloakInstance::fresh(id, account_id, platform, user_data_dir, now),
    {
        let now = now_ms();
        Self::new_at(id, account_id, platform, user_data_dir, now)
    }

    /// The scaled priority score of this instance (see `priority_scaled`).
    pub fn priority_score(&self, w: PriorityWeights, max_unread: u32, window_ms: u64, now: i64) -> (r: u128)
        ensures
            r == priority_scaled(*self, w, max_unread as int, window_ms as int, now as int),
    {
        let since: i128 = (now as i128) - (self.last_message_at as i128);
        let rem: i128 = (window_ms as i128) - since;
        let rec: u128 = if rem < 0 {
            0
        } else if rem > window_ms as i128 {
            window_ms as u128
        } else {
            rem as u128
        };
        let wu = w.unread as u128;
        let wr = w.recency as u128;
        let wp = w.pin as u128;
        let u = self.unread_count as u128;
        let m = max_unread as u128;
        let win = window_ms as u128;
        assert(wu * u < 0x1_0000 * 0x1_0000_0000) by (nonlinear_arith)
            requires wu < 0x1_0000, u < 0x1_0000_0000;
        assert(wu * u * win < 0x1_0000 * 0x1_0000_0000 * 0x1_0000_0000_0000_0000) by (nonlinear_arith)
            requires wu * u < 0x1_0000 * 0x1_0000_0000, win < 0x1_0000_0000_0000_0000;
        assert(wr * m < 0x1_0000 * 0x1_0000_0000) by (nonlinear_arith)
            requires wr < 0x1_0000, m < 0x1_0000_0000;
        assert(wr * m * rec < 0x1_0000 * 0x1_0000_0000 * 0x1_0000_0000_0000_0000) by (nonlinear_arith)
            requires wr * m < 0x1_0000 * 0x1_0000_0000, rec <= win, win < 0x1_0000_0000_0000_0000;
        assert(wp * m < 0x1_0000 * 0x1_0000_0000) by (nonlinear_arith)
            requires wp < 0x1_0000, m < 0x1_0000_0000;
        assert(wp * m * win < 0x1_0000 * 0x1_0000_0000 * 0x1_0000_0000_0000_0000) by (nonlinear_arith)
            requires wp * m < 0x1_0000 * 0x1_0000_0000, win < 0x1_0000_0000_0000_0000;
        let a = wu * u * win;
        let b = wr * m * rec;
        let c = if self.is_pinned { wp * m * win } else { 0 };
        a + b + c
    }
}

/// The priority score grows with what makes an instance worth keeping:
/// with more unread messages, with a later last message, and with the pin,
/// all else equal. A message that arrives now counts the whole window, one
/// older than the window counts nothing, and the score of an instance with
/// nothing unread, no recent message and no pin is 0.
pub proof fn law_priority_score_order(inst: CloakInstance, w: PriorityWeights, max_unread: int, window_ms: int, now: int)
    requires
        max_unread >= 0,
        window_ms >= 0,
    ensures
        forall|u: u32| inst.unread_count <= u ==> priority_scaled(inst, w, max_unread, window_ms, now)
            <= #[trigger] priority_scaled(CloakInstance { unread_count: u, ..inst }, w, max_unread, window_ms, now),
        forall|t: i64| inst.last_message_at <= t ==> priority_scaled(inst, w, max_unread, window_ms, now)
            <= #[trigger] priority_scaled(CloakInstance { last_message_at: t, ..inst }, w, max_unread, window_ms, now),
        priority_scaled(CloakInstance { is_pinned: false, ..inst }, w, max_unread, window_ms, now)
            <= priority_scaled(CloakInstance { is_pinned: true, ..inst }, w, max_unread, window_ms, now),
        inst.last_message_at == now ==> priority_scaled(inst, w, max_unread, window_ms, now)
            == w.unread * inst.unread_count * window_ms + w.recency * max_unread * window_ms
            + (if inst.is_pinned { w.pin * max_unread * window_ms } else { 0 }),
        now - inst.last_message_at >= window_ms ==> priority_scaled(inst, w, max_unread, window_ms, now)
            == w.unread * inst.unread_count * window_ms + (if inst.is_pinned { w.pin * max_unread * window_ms } else { 0 }),
{
    assert forall|u: u32| inst.unread_count <= u implies priority_scaled(inst, w, max_unread, window_ms, now)
        <= #[trigger] priority_scaled(CloakInstance { unread_count: u, ..inst }, w, max_unread, window_ms, now) by {
        let a = inst.unread_count as int;
        let wu = w.unread as int;
        assert(wu * a * window_ms <= wu * u * window_ms) by (nonlinear_arith)
            requires a <= u, wu >= 0, window_ms >= 0;
    }
    assert forall|t: i64| inst.last_message_at <= t implies priority_scaled(inst, w, max_unread, window_ms, now)
        <= #[trigger] priority_scaled(CloakInstance { last_message_at: t, ..inst }, w, max_unread, window_ms, now) by {
        let ra = recency_part(inst.last_message_at as int, window_ms, now);
        let rb = recency_part(t as int, window_ms, now);
        assert(ra <= rb);
        let wr = w.recency as int;
        assert(wr * max_unread * ra <= wr * max_unread * rb) by (nonlinear_arith)
            requires ra <= rb, wr >= 0, max_unread >= 0;
    }
    let wp = w.pin as int;
    assert(wp * max_unread * window_ms >= 0) by (nonlinear_arith)
        requires wp >= 0, max_unread >= 0, window_ms >= 0;
}

} // verus!
