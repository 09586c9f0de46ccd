//! Values computed for the database queries.

use vstd::prelude::*;
use crate::text::owned;

verus! {

/// The `LIKE` pattern that finds `query` anywhere in a text.
pub fn like_pattern(query: &str) -> (r: String)
    ensures
        r@ == "%"@ + query@ + "%"@,
{
    let mut s = owned("%");
    s.append(query);
    s.append("%");
    s
}

/// When a cache entry written at `now_ms` with a lifetime of `ttl_secs`
/// seconds expires, in ms since the epoch. The lifetime is taken as a
/// signed number (`ttl_secs as i64`), so lifetimes beyond `i64::MAX`
/// seconds wrap to negative ones and give entries that have already
/// expired; the product and the sum must fit in an `i64`.
pub fn cache_expires_at(now_ms: i64, ttl_secs: u64) -> (r: i64)
    requires
        i64::MIN <= (ttl_secs as i64) * 1000 <= i64::MAX,
        i64::MIN <= now_ms + (ttl_secs as i64) * 1000 <= i64::MAX,
    ensures
        r == now_ms + (ttl_secs as i64) * 1000,
{
    now_ms + (ttl_secs as i64) * 1000
}

} // verus!
