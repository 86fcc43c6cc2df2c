use vstd::prelude::*;

verus! {

/// How long a written cache stays fresh, in seconds.
pub const CACHE_TTL_SECS: u64 = 3600;

/// A cache whose last write lies `age` whole seconds in the past is fresh;
/// `None` stands for a missing file, an unreadable time, or a time in the future.
pub open spec fn is_fresh(age: Option<u64>) -> bool {
    match age {
        Some(a) => a < CACHE_TTL_SECS,
        None => false,
    }
}

/// Decides whether the cache may be served without a refresh.
pub fn is_cache_valid(age_secs: Option<u64>) -> (r: bool)
    ensures
        r == is_fresh(age_secs),
{
    match age_secs {
        Some(a) => a < CACHE_TTL_SECS,
        None => false,
    }
}

} // verus!
