//! Transition effects: how a lamp moves from its current state to the requested one.
use vstd::prelude::*;

verus! {

/// Shortest smooth transition the lamp accepts, in milliseconds.
pub const MIN_SMOOTH_MS: u64 = 30;

/// The transition itself; kept private so that a smooth duration never drops below
/// `MIN_SMOOTH_MS`.
#[derive(Clone, Copy, Debug, PartialEq, Eq, Structural)]
enum Transition {
    Sudden,
    Smooth(u64),
}

/// A transition effect: sudden (instant) or smooth over a number of milliseconds.
///
/// Build one with `Effect::new_sudden` or `Effect::new_smooth`. Its model is
/// `None` for a sudden effect and `Some(ms)` for a smooth one.
#[derive(Clone, Copy, Debug, PartialEq, Eq, Structural)]
pub struct Effect {
    transition: Transition,
}

/// The model of `Effect::new_smooth(ms)`: zero degrades to a sudden effect, a positive
/// duration under the floor is raised to the floor, any other duration is kept.
pub open spec fn smooth_model(ms: u64) -> Option<u64> {
    if ms == 0 {
        None
    } else if ms < MIN_SMOOTH_MS {
        Some(MIN_SMOOTH_MS)
    } else {
        Some(ms)
    }
}

impl View for Effect {
    type V = Option<u64>;

    closed spec fn view(&self) -> Option<u64> {
        match self.transition {
            Transition::Sudden => None,
            Transition::Smooth(ms) => Some(ms),
        }
    }
}

impl Effect {
    #[verifier::type_invariant]
    spec fn well_formed(self) -> bool {
        match self.transition {
            Transition::Sudden => true,
            Transition::Smooth(ms) => ms >= MIN_SMOOTH_MS,
        }
    }

    /// A smooth effect lasting `ms` milliseconds, normalised: zero gives a sudden
    /// effect, a positive duration under 30 ms is raised to 30 ms.
    pub fn new_smooth(ms: u64) -> (r: Effect)
        ensures
            r@ == smooth_model(ms),
            ms == 0 ==> r@ is None,
            0 < ms < MIN_SMOOTH_MS ==> r@ == Some(MIN_SMOOTH_MS),
            ms >= MIN_SMOOTH_MS ==> r@ == Some(ms),
    {
        if ms == 0 {
            Effect { transition: Transition::Sudden }
        } else if ms < MIN_SMOOTH_MS {
            Effect { transition: Transition::Smooth(MIN_SMOOTH_MS) }
        } else {
            Effect { transition: Transition::Smooth(ms) }
        }
    }

    /// An instant effect.
    pub fn new_sudden() -> (r: Effect)
        ensures
            r@ is None,
    {
        Effect { transition: Transition::Sudden }
    }

    /// The duration of a smooth effect in milliseconds, `None` for a sudden one.
    pub fn smooth_millis(&self) -> (r: Option<u64>)
        ensures
            r == self@,
            r matches Some(ms) ==> ms >= MIN_SMOOTH_MS,
    {
        proof {
            use_type_invariant(self);
        }
        match self.transition {
            Transition::Sudden => None,
            Transition::Smooth(ms) => Some(ms),
        }
    }

    /// Whether the effect is sudden.
    pub fn is_sudden(&self) -> (r: bool)
        ensures
            r == (self@ is None),
    {
        match self.transition {
            Transition::Sudden => true,
            Transition::Smooth(_) => false,
        }
    }
}

impl Default for Effect {
    /// The default effect is sudden.
    fn default() -> (r: Effect)
        ensures
            r@ is None,
    {
        Effect::new_sudden()
    }
}

/// Asking for a smooth effect of zero milliseconds gives what `Effect::new_sudden`
/// gives: both have the model `None`.
pub proof fn smooth_zero_is_sudden()
    ensures
        smooth_model(0) is None,
{
}

} // verus!
