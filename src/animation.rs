//! Animation requirements of a widget, ordered by urgency.
use std::cmp::Ordering;
use vstd::prelude::*;

verus! {

/// A point in time, in nanoseconds from an origin (the system clock reads
/// it from the Unix epoch).
#[derive(Debug, Clone, Copy, PartialEq, Eq, Structural, PartialOrd, Ord, Hash)]
pub struct Moment {
    pub nanos: u64,
}

/// Nanoseconds from `earlier` to `later`, or zero when `earlier` is later.
pub open spec fn nanos_between(earlier: Moment, later: Moment) -> u64 {
    if later.nanos >= earlier.nanos {
        (later.nanos - earlier.nanos) as u64
    } else {
        0
    }
}

impl Moment {
    /// The moment `millis` milliseconds after the origin.
    pub fn from_millis(millis: u64) -> (r: Moment)
        requires
            millis * 1_000_000 <= u64::MAX,
        ensures
            r.nanos == millis * 1_000_000,
    {
        Moment { nanos: millis * 1_000_000 }
    }

    /// The moment `nanos` nanoseconds after this one, if it can be represented.
    pub fn checked_add_nanos(self, nanos: u64) -> (r: Option<Moment>)
        ensures
            self.nanos + nanos <= u64::MAX ==> r == Some(Moment { nanos: (self.nanos + nanos) as u64 }),
            self.nanos + nanos > u64::MAX ==> r is None,
    {
        match self.nanos.checked_add(nanos) {
            Some(n) => Some(Moment { nanos: n }),
            None => None,
        }
    }

    /// Nanoseconds from `earlier` to `self`, or zero when `earlier` is later.
    pub fn saturating_since(self, earlier: Moment) -> (r: u64)
        ensures
            r == nanos_between(earlier, self),
    {
        self.nanos.saturating_sub(earlier.nanos)
    }
}

/// Animation requirements of a widget.
///
/// `NotAnimating` is greater than any value of `AnimateIn`, so that the
/// minimum of a set of states is the soonest animation needed. The derived
/// `Ord` follows the order of the variants and then of the moments, which is
/// the order that `partial_cmp` states.
#[derive(Debug, Clone, Copy, PartialEq, Eq, Structural, Ord)]
pub enum AnimationState {
    /// The widget needs to animate itself at the provided moment.
    AnimateIn(Moment),
    /// The widget is not animating. It only changes in response to events or
    /// user interaction.
    NotAnimating,
}

/// The order of urgency between two animation states.
pub open spec fn urgency_order(a: AnimationState, b: AnimationState) -> Ordering {
    match (a, b) {
        (AnimationState::NotAnimating, AnimationState::NotAnimating) => Ordering::Equal,
        (_, AnimationState::NotAnimating) => Ordering::Less,
        (AnimationState::NotAnimating, _) => Ordering::Greater,
        (AnimationState::AnimateIn(x), AnimationState::AnimateIn(y)) => {
            if x.nanos < y.nanos {
                Ordering::Less
            } else if x.nanos == y.nanos {
                Ordering::Equal
            } else {
                Ordering::Greater
            }
        },
    }
}

impl AnimationState {
    /// Compares two states by urgency: sooner moments first, not animating last.
    pub fn compare(&self, other: &AnimationState) -> (r: Ordering)
        ensures
            r == urgency_order(*self, *other),
    {
        match (self, other) {
            (AnimationState::NotAnimating, AnimationState::NotAnimating) => Ordering::Equal,
            (_, AnimationState::NotAnimating) => Ordering::Less,
            (AnimationState::NotAnimating, _) => Ordering::Greater,
            (AnimationState::AnimateIn(a), AnimationState::AnimateIn(b)) => {
                if a.nanos < b.nanos {
                    Ordering::Less
                } else if a.nanos == b.nanos {
                    Ordering::Equal
                } else {
                    Ordering::Greater
                }
            },
        }
    }
}

impl PartialOrd for AnimationState {
    fn partial_cmp(&self, other: &AnimationState) -> (r: Option<Ordering>) {
        Some(self.compare(other))
    }
}

impl vstd::std_specs::cmp::PartialOrdSpecImpl for AnimationState {
    open spec fn obeys_partial_cmp_spec() -> bool {
        true
    }

    open spec fn partial_cmp_spec(&self, other: &AnimationState) -> Option<Ordering> {
        Some(urgency_order(*self, *other))
    }
}

} // verus!
