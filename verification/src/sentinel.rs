use vstd::prelude::*;

verus! {

/// The boundary encodes "unknown" / "unbounded" unsigned quantities as the
/// maximum representable value instead of carrying a separate optionality
/// flag.  These two functions are the only place where the encoding lives.
pub open spec fn spec_option_from_sentinel(v: u64) -> Option<u64> {
    if v == u64::MAX {
        None
    } else {
        Some(v)
    }
}

pub open spec fn spec_sentinel_from_option(v: Option<u64>) -> u64 {
    match v {
        None => u64::MAX,
        Some(x) => x,
    }
}

/// Decodes a boundary value: the sentinel becomes `None`, everything else is
/// carried through unchanged.
pub fn option_from_sentinel(v: u64) -> (r: Option<u64>)
    ensures
        r == spec_option_from_sentinel(v),
{
    if v == u64::MAX {
        None
    } else {
        Some(v)
    }
}

/// Encodes an optional value for the boundary: `None` becomes the sentinel.
pub fn sentinel_from_option(v: Option<u64>) -> (r: u64)
    ensures
        r == spec_sentinel_from_option(v),
{
    match v {
        None => u64::MAX,
        Some(x) => x,
    }
}

/// An optional quantity survives the trip through the boundary encoding,
/// provided a known value never collides with the sentinel itself.
pub proof fn lemma_sentinel_round_trip(v: Option<u64>)
    requires
        v matches Some(x) ==> x < u64::MAX,
    ensures
        spec_option_from_sentinel(spec_sentinel_from_option(v)) == v,
{
}

/// Every boundary word decodes and re-encodes to itself, the sentinel
/// included.
pub proof fn lemma_sentinel_round_trip_back(u: u64)
    ensures
        spec_sentinel_from_option(spec_option_from_sentinel(u)) == u,
{
}

} // verus!
