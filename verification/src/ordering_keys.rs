//! Ordering of stable ordering keys, in the shape `sort_by` expects.
use vstd::prelude::*;
use crate::query_compare::{compare_segments, segments_order};
use crate::query_types::StableOrderingKey;
use crate::text::KeyOrder;

verus! {

/// Compares two stable ordering keys segment by segment, by code point; a
/// key that is a proper prefix of another sorts first.
pub fn compare_stable_ordering_keys(left: &StableOrderingKey, right: &StableOrderingKey) -> (r: core::cmp::Ordering)
    ensures
        (r == core::cmp::Ordering::Less) == (segments_order(left@, right@) == KeyOrder::Less),
        (r == core::cmp::Ordering::Equal) == (segments_order(left@, right@) == KeyOrder::Equal),
        (r == core::cmp::Ordering::Greater) == (segments_order(left@, right@) == KeyOrder::Greater),
{
    match compare_segments(left.segments(), right.segments()) {
        KeyOrder::Less => core::cmp::Ordering::Less,
        KeyOrder::Equal => core::cmp::Ordering::Equal,
        KeyOrder::Greater => core::cmp::Ordering::Greater,
    }
}

} // verus!
