//! Pool configuration and the clock.
//!
//! Memory figures are held in thousandths of a gigabyte and the memory
//! budget in thousandths of the total, so that every rule that reads them is
//! exact integer arithmetic.

use vstd::prelude::*;

verus! {

/// Configuration of the browser instance pool.
#[derive(Debug, Clone, Copy)]
pub struct PoolConfig {
    pub max_active: u32,
    pub max_warm: u32,
    pub max_monitor: u32,
    /// Share of the system memory the pool may plan for, in thousandths.
    pub memory_budget_permille: u32,
    /// Memory kept free for the rest of the system, in thousandths of a GB.
    pub reserve_mgb: u64,
    /// Memory taken by one fully rendered instance, in thousandths of a GB.
    pub per_active_mgb: u64,
    /// Memory taken by one headless monitoring instance, in thousandths of a GB.
    pub per_monitor_mgb: u64,
    pub demote_idle_secs: u64,
    pub warm_to_monitor_secs: u64,
    pub freeze_idle_secs: u64,
    pub poll_interval_ms: u64,
}

impl PoolConfig {
    /// The default configuration, as a value.
    pub open spec fn default_spec() -> PoolConfig {
        PoolConfig {
            max_active: 5,
            max_warm: 2,
            max_monitor: 20,
            memory_budget_permille: 750,
            reserve_mgb: 1500,
            per_active_mgb: 400,
            per_monitor_mgb: 35,
            demote_idle_secs: 300,
            warm_to_monitor_secs: 600,
            freeze_idle_secs: 1800,
            poll_interval_ms: 10000,
        }
    }
}

impl Default for PoolConfig {
    fn default() -> (r: Self)
        ensures
            r == PoolConfig::default_spec(),
    {
        PoolConfig {
            max_active: 5,
            max_warm: 2,
            max_monitor: 20,
            memory_budget_permille: 750,
            reserve_mgb: 1500,
            per_active_mgb: 400,
            per_monitor_mgb: 35,
            demote_idle_secs: 300,
            warm_to_monitor_secs: 600,
            freeze_idle_secs: 1800,
            poll_interval_ms: 10000,
        }
    }
}

/// How many fully rendered instances fit in the memory budget of a machine
/// with `ram_mgb` thousandths of a GB: the budget share of the memory, less
/// the reserve, divided by the memory of one active instance, rounded down
/// and held between 1 and 8. With nothing left after the reserve it is 1.
pub open spec fn max_active_for(ram_mgb: int, c: PoolConfig) -> int {
    // in millionths of a GB
    let available = ram_mgb * c.memory_budget_permille - c.reserve_mgb * 1000;
    if available <= 0 {
        1
    } else if c.per_active_mgb == 0 {
        8
    } else {
        let by_ram = available / (c.per_active_mgb * 1000);
        if by_ram < 1 {
            1
        } else if by_ram > 8 {
            8
        } else {
            by_ram
        }
    }
}

/// The number of active instances is between 1 and 8, and otherwise as
/// many as the memory left after the reserve holds: where something is left
/// and one instance takes some memory, either it is 1 or that many instances
/// fit, and either it is 8 or one more would not fit. Nothing left gives 1.
pub proof fn law_max_active_fits_budget(ram_mgb: int, c: PoolConfig)
    requires
        ram_mgb >= 0,
    ensures
        ({
            let r = max_active_for(ram_mgb, c);
            let available = ram_mgb * c.memory_budget_permille - c.reserve_mgb * 1000;
            let one = c.per_active_mgb * 1000;
            &&& 1 <= r <= 8
            &&& available <= 0 ==> r == 1
            &&& available > 0 && one > 0 ==> (r == 1 || r * one <= available)
            &&& available > 0 && one > 0 ==> (r == 8 || (r + 1) * one > available)
        }),
{
    let available = ram_mgb * c.memory_budget_permille - c.reserve_mgb * 1000;
    let one = c.per_active_mgb * 1000;
    if available > 0 && one > 0 {
        let q = available / one;
        assert(q * one <= available && available < (q + 1) * one) by (nonlinear_arith)
            requires available > 0, one > 0, q == available / one;
        let r = max_active_for(ram_mgb, c);
        if 1 < r && r < 8 {
            assert(r == q);
        }
        if r == 1 && q < 1 {
            assert((r + 1) * one > available) by (nonlinear_arith)
                requires q < 1, available < (q + 1) * one, one > 0, r == 1;
        }
        if r > 8 && q > 8 {
        }
        if r < 8 {
            assert(q <= 8);
            assert((r + 1) * one > available) by (nonlinear_arith)
                requires r >= q, available < (q + 1) * one, one > 0;
        }
        if r > 1 {
            assert(r * one <= available) by (nonlinear_arith)
                requires r <= q, q * one <= available, one > 0, r > 0;
        }
    }
}

/// The number of active instances the memory budget allows.
pub fn compute_max_active(system_ram_mgb: u64, config: &PoolConfig) -> (r: u32)
    ensures
        r == max_active_for(system_ram_mgb as int, *config),
        1 <= r <= 8,
{
    let ram = system_ram_mgb as u128;
    let pct = config.memory_budget_permille as u128;
    assert(ram * pct < 0x1_0000_0000_0000_0000 * 0x1_0000_0000) by (nonlinear_arith)
        requires ram < 0x1_0000_0000_0000_0000, pct < 0x1_0000_0000;
    let budget: u128 = ram * pct;
    let reserve: u128 = (config.reserve_mgb as u128) * 1000;
    if budget <= reserve {
        return 1;
    }
    let available: u128 = budget - reserve;
    if config.per_active_mgb == 0 {
        return 8;
    }
    let by_ram: u128 = available / ((config.per_active_mgb as u128) * 1000);
    if by_ram < 1 {
        1
    } else if by_ram > 8 {
        8
    } else {
        by_ram as u32
    }
}

/// Milliseconds since the Unix epoch as the system clock reads them
/// (`SystemTime::now` and `SystemTime::duration_since(UNIX_EPOCH)`), or
/// `None` where the clock stands before the epoch. Nothing is promised of
/// the value: it is whatever the clock says.
#[verifier::external_body]
fn unix_millis_now() -> Option<u128> {
    match std::time::SystemTime::now().duration_since(std::time::UNIX_EPOCH) {
        Ok(d) => Some(d.as_millis()),
        Err(_) => None,
    }
}

/// A clock reading in milliseconds since the Unix epoch as a signed 64-bit
/// number: the reading cut to its low 64 bits (as `as i64` does), 0 where
/// there is no reading.
pub open spec fn epoch_millis(reading: Option<u128>) -> i64 {
    match reading {
        Some(ms) => ms as i64,
        None => 0,
    }
}

/// The time value of a clock reading (see `epoch_millis`).
pub fn millis_of_reading(reading: Option<u128>) -> (r: i64)
    ensures
        r == epoch_millis(reading),
{
    match reading {
        Some(ms) => ms as i64,
        None => 0,
    }
}

/// Current time in milliseconds since the Unix epoch (0 where the clock
/// stands before the epoch): `epoch_millis` of what the clock reads. Which
/// time that is depends on the clock alone.
pub fn now_ms() -> i64 {
    millis_of_reading(unix_millis_now())
}

} // verus!
