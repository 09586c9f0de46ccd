//! Tying browser processes to the lifetime of the application. Only
//! Windows has such a mechanism (job objects, driven from the application);
//! on every other platform these are no-ops that succeed.

use vstd::prelude::*;

verus! {

/// Prepares process protection: nothing to do on this platform.
pub fn init() -> (r: Result<(), String>)
    ensures
        r is Ok,
{
    Ok(())
}

/// Binds process `pid` to the application: nothing to do on this platform.
pub fn assign(_pid: u32) -> (r: Result<(), String>)
    ensures
        r is Ok,
{
    Ok(())
}

} // verus!
