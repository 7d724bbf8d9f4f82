//! Where a temperature lies with respect to the one that is aimed at.
use vstd::prelude::*;

verus! {

/// Where a temperature lies with respect to a range around the one that is aimed at.
#[derive(Clone, Copy, Debug, PartialEq, Eq, Structural)]
pub enum TargetRange {
    Below,
    InRange,
    Above,
}

/// Whether `below` and `within` may place a temperature as `range` says. They get the temperature,
/// the one that is aimed at and the width of the range; `below` tells whether the temperature is
/// under the range, `within` whether it is not over it.
pub open spec fn is_range<V, T, B: Fn(V, T, V) -> bool, W: Fn(V, T, V) -> bool>(
    below: B,
    within: W,
    args: (V, T, V),
    range: TargetRange,
) -> bool {
    match range {
        TargetRange::Below => call_ensures(below, args, true),
        TargetRange::InRange => call_ensures(below, args, false) && call_ensures(
            within,
            args,
            true,
        ),
        TargetRange::Above => call_ensures(below, args, false) && call_ensures(
            within,
            args,
            false,
        ),
    }
}

/// Places a temperature with `below` and `within`.
pub fn target_range<V: Copy, T: Copy, B: Fn(V, T, V) -> bool, W: Fn(V, T, V) -> bool>(
    below: &B,
    within: &W,
    temperature: V,
    target: T,
    width: V,
) -> (range: TargetRange)
    requires
        call_requires(*below, (temperature, target, width)),
        call_requires(*within, (temperature, target, width)),
    ensures
        is_range(*below, *within, (temperature, target, width), range),
{
    if below(temperature, target, width) {
        TargetRange::Below
    } else if within(temperature, target, width) {
        TargetRange::InRange
    } else {
        TargetRange::Above
    }
}

/// A temperature is under the range wherever `below` says so, whatever `within` says; otherwise it
/// is in the range or over it as `within` says.
pub proof fn law_below_comes_first<V: Copy, T: Copy, B: Fn(V, T, V) -> bool, W: Fn(V, T, V) -> bool>(
    below: &B,
    within: &W,
    temperature: V,
    target: T,
    width: V,
    range: TargetRange,
    is_below: bool,
    is_within: bool,
)
    requires
        call_ensures(
            target_range::<V, T, B, W>,
            (below, within, temperature, target, width),
            range,
        ),
        forall|answer: bool| #[trigger]
            call_ensures(*below, (temperature, target, width), answer) ==> answer == is_below,
        forall|answer: bool| #[trigger]
            call_ensures(*within, (temperature, target, width), answer) ==> answer == is_within,
    ensures
        is_below ==> range is Below,
        !is_below && is_within ==> range is InRange,
        !is_below && !is_within ==> range is Above,
{
}

} // verus!
