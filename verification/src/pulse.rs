//! Pulses: actions that become available once a time threshold is reached.

use vstd::prelude::*;
use vstd::std_specs::cmp::PartialOrdSpec;

verus! {

/// A pulse in time, representing an event occurrence and something happening.
///
/// `T` is the type of time; `F` is the type of the carried action, a function of time (a boxed
/// `dyn Fn(T)` to keep pulses with different actions together).
pub struct Pulse<T, F> {
    /// Activation time threshold.
    pub time_threshold: T,
    /// Carried closure representing the pulse.
    action: F,
}

/// Whether time `t` has reached the threshold: it compares as greater than or equal to it.
pub open spec fn reached<T: PartialOrd>(t: T, threshold: T) -> bool {
    match t.partial_cmp_spec(&threshold) {
        Some(core::cmp::Ordering::Less) => false,
        Some(_) => true,
        None => false,
    }
}

impl<T: PartialOrd, F: Fn(T)> Pulse<T, F> {
    /// The carried action.
    pub closed spec fn action(&self) -> F {
        self.action
    }

    /// The activation time threshold.
    pub closed spec fn threshold(&self) -> T {
        self.time_threshold
    }

    /// Create a new `Pulse` which carried action occurs at `time_threshold`.
    pub fn new(time_threshold: T, action: F) -> (res: Self)
        ensures
            res.threshold() == time_threshold,
            res.action() == action,
    {
        Pulse { time_threshold, action }
    }

    /// Try to access the action of a `Pulse`. Returns a reference to it if it’s already occured,
    /// that is if `t` is at least the threshold.
    pub fn try_action(&self, t: T) -> (res: Option<&F>)
        ensures
            T::obeys_partial_cmp_spec() ==> (res is Some <==> reached(t, self.threshold())),
            res matches Some(a) ==> *a == self.action(),
    {
        if t >= self.time_threshold {
            Some(&self.action)
        } else {
            None
        }
    }
}

} // verus!
