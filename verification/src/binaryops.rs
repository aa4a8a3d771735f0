use vstd::laws_cmp::obeys_cmp;
use vstd::laws_cmp::obeys_cmp_ord;
use vstd::laws_cmp::obeys_partial_cmp_spec_properties;
use vstd::prelude::*;
use vstd::std_specs::cmp::PartialOrdIs;
use vstd::std_specs::cmp::PartialOrdSpec;

verus! {

/// The value that limiting `value` to the range from `min` to `max` gives:
/// `min` where `value` lies below it, `max` where `value` lies above it,
/// `value` itself otherwise. The lower bound is tried first.
pub open spec fn clip_spec<T: PartialOrd>(value: T, min: T, max: T) -> T {
    if value.is_lt(&min) {
        min
    } else if value.is_gt(&max) {
        max
    } else {
        value
    }
}

/// Limits `value` to the range from `min` to `max`.
///
/// The bounds are not checked against each other: where `min` lies above
/// `max`, every value comes back as one of the two, `min` where the value
/// lies below it and `max` otherwise. For a type whose comparison Verus has
/// no model of, such as the floats, the contract only says that the result is
/// one of the three arguments.
pub fn clip<T: PartialOrd>(value: T, min: T, max: T) -> (r: T)
    ensures
        T::obeys_partial_cmp_spec() ==> r == clip_spec(value, min, max),
        r == value || r == min || r == max,
{
    if value < min {
        min
    } else if value > max {
        max
    } else {
        value
    }
}

/// Limiting a value twice to the same range gives what limiting it once
/// gives, for every range whose lower bound does not lie above its upper
/// bound and every type whose comparison is a total order.
pub proof fn lemma_clip_idempotent<T: Ord>(value: T, min: T, max: T)
    requires
        obeys_cmp::<T>(),
        min.is_le(&max),
    ensures
        clip_spec(clip_spec(value, min, max), min, max) == clip_spec(value, min, max),
{
    reveal(obeys_cmp_ord);
    reveal(obeys_partial_cmp_spec_properties);
}

/// A limited value lies within the range it was limited to, for every range
/// whose lower bound does not lie above its upper bound and every type whose
/// comparison is a total order.
pub proof fn lemma_clip_within_range<T: Ord>(value: T, min: T, max: T)
    requires
        obeys_cmp::<T>(),
        min.is_le(&max),
    ensures
        min.is_le(&clip_spec(value, min, max)),
        clip_spec(value, min, max).is_le(&max),
{
    reveal(obeys_cmp_ord);
    reveal(obeys_partial_cmp_spec_properties);
}

} // verus!
