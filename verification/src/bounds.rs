//! Clamping a value between two bounds.

use vstd::prelude::*;
use vstd::std_specs::cmp::{PartialOrdIs, PartialOrdSpec};

verus! {

/// The value of `clamp`: `min` where `value` lies below it, else `max` where
/// `value` lies above it, else `value`. The lower bound is tested first, so
/// with `max` below `min` every value maps to one of the two bounds.
pub open spec fn clamp_spec<T: Ord>(value: T, min: T, max: T) -> T {
    if value.is_lt(&min) {
        min
    } else if value.is_gt(&max) {
        max
    } else {
        value
    }
}

/// Restricts `value` to the range from `min` to `max`.
///
/// Unlike `Ord::clamp` this never panics: the bounds may come in any order.
pub fn clamp<T: Ord>(value: T, min: T, max: T) -> (r: T)
    ensures
        r == value || r == min || r == max,
        T::obeys_partial_cmp_spec() ==> r == clamp_spec(value, min, max),
{
    if value < min {
        min
    } else if value > max {
        max
    } else {
        value
    }
}

/// On machine integers `clamp_spec` is the usual three-way choice, here for
/// the width that the recovery triggers are counted in.
pub proof fn lemma_clamp_i64(value: i64, min: i64, max: i64)
    ensures
        clamp_spec(value, min, max) == if value < min {
            min
        } else if value > max {
            max
        } else {
            value
        },
{
}

/// With ordered bounds the clamped value lies between them, and a value
/// already between them is left alone.
pub proof fn lemma_clamp_within(value: i64, min: i64, max: i64)
    requires
        min <= max,
    ensures
        min <= clamp_spec(value, min, max) <= max,
        min <= value <= max ==> clamp_spec(value, min, max) == value,
{
}

/// With ordered bounds, clamping twice is the same as clamping once. (With
/// `max` below `min` it is not: a value above both goes to `max` and from
/// there to `min`.)
pub proof fn lemma_clamp_idempotent(value: i64, min: i64, max: i64)
    requires
        min <= max,
    ensures
        clamp_spec(clamp_spec(value, min, max), min, max) == clamp_spec(value, min, max),
{
}

} // verus!
