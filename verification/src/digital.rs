//! The four capability contracts for a single digital I/O line.
//!
//! Each trait models one capability of a pin driver. State-changing
//! operations take `&mut self`; pure queries take `&self`. Every operation
//! returns `Result` with an error type the implementation chooses; a driver
//! that cannot fail picks [`Never`].

use vstd::pervasive::unreached;
use vstd::prelude::*;

verus! {

/// An error type for drivers whose operations cannot fail.
///
/// Its type invariant rules every value out, so executable code can never
/// hold one: a `Result` whose error type is `Never` always reports success,
/// and [`into_ok`] extracts its value unconditionally.
pub struct Never {
    no_value: (),
}

impl Never {
    #[verifier::type_invariant]
    spec fn uninhabited(self) -> bool {
        false
    }
}

/// Every operation of an infallible driver reports success: a `Result`
/// whose error type is [`Never`] is always `Ok`, and its value can be
/// extracted without any error handling.
pub fn into_ok<T>(r: Result<T, Never>) -> (t: T)
    ensures
        r == Ok::<T, Never>(t),
{
    match r {
        Ok(t) => t,
        Err(e) => {
            proof {
                use_type_invariant(&e);
            }
            unreached()
        }
    }
}

/// Single digital push-pull output pin.
///
/// The spec function [`OutputPin::commanded_high`] is the ghost model of the
/// pin's logical drive state: the level the pin was last commanded to. The
/// write operations promise, on success, that the commanded state is the
/// requested one. They promise nothing about the electrical level of the
/// line: an external source may override what the pin drives.
pub trait OutputPin: Sized {
    /// Error type produced by the implementation's failed operations.
    type Error;

    /// The logical drive state the pin is currently commanded to:
    /// `true` for high, `false` for low.
    ///
    /// This models the commanded state only, never the electrical state.
    spec fn commanded_high(&self) -> bool;

    /// The full outcome the implementation promises of one `set_low` call
    /// on a pin in the state of `self`: how the pin afterwards (`post`)
    /// and the returned result relate to it. Code built generically on
    /// output pins hands this relation through unmodified, so whatever a
    /// driver states here — in particular which error a failed write
    /// returns, and what it leaves of the pin's state — reaches the
    /// caller. A driver that promises no more than the interface
    /// guarantee defines it as `true`.
    spec fn set_low_post(&self, post: Self, r: Result<(), Self::Error>) -> bool;

    /// The full outcome the implementation promises of one `set_high`
    /// call, as [`OutputPin::set_low_post`] for `set_low`.
    spec fn set_high_post(&self, post: Self, r: Result<(), Self::Error>) -> bool;

    /// Commands the pin to drive low.
    ///
    /// The actual electrical state of the pin may not be low, e.g. due to
    /// external electrical sources.
    fn set_low(&mut self) -> (r: Result<(), Self::Error>)
        ensures
            r is Ok ==> !final(self).commanded_high(),
            old(self).set_low_post(*final(self), r),
    ;

    /// Commands the pin to drive high.
    ///
    /// The actual electrical state of the pin may not be high, e.g. due to
    /// external electrical sources.
    fn set_high(&mut self) -> (r: Result<(), Self::Error>)
        ensures
            r is Ok ==> final(self).commanded_high(),
            old(self).set_high_post(*final(self), r),
    ;
}

/// Push-pull output pin that can read back its own commanded state.
///
/// The read-back reports the commanded state modeled by
/// [`OutputPin::commanded_high`], never the electrical state of the line.
/// A successful `is_set_high` and a successful `is_set_low` are therefore
/// logical complements of each other. The error type is the one of the base
/// [`OutputPin`].
pub trait StatefulOutputPin: OutputPin {
    /// The full outcome the implementation promises of one `is_set_high`
    /// call on a pin in the state of `self`, as [`OutputPin::set_low_post`]
    /// for the writes. The read takes a shared reference, so no state
    /// change is part of the relation.
    spec fn is_set_high_post(&self, r: Result<bool, Self::Error>) -> bool;

    /// The full outcome the implementation promises of one `is_set_low`
    /// call, as [`StatefulOutputPin::is_set_high_post`].
    spec fn is_set_low_post(&self, r: Result<bool, Self::Error>) -> bool;

    /// Is the pin commanded to drive high?
    ///
    /// This does not read the electrical state of the pin.
    fn is_set_high(&self) -> (r: Result<bool, Self::Error>)
        ensures
            r matches Ok(b) ==> b == self.commanded_high(),
            self.is_set_high_post(r),
    ;

    /// Is the pin commanded to drive low?
    ///
    /// This does not read the electrical state of the pin.
    fn is_set_low(&self) -> (r: Result<bool, Self::Error>)
        ensures
            r matches Ok(b) ==> b == !self.commanded_high(),
            self.is_set_low_post(r),
    ;
}

/// Output pin whose commanded state can be flipped in one operation.
///
/// The error type is independent of [`OutputPin`]'s: a driver may implement
/// `toggle` through a dedicated hardware register with its own failure
/// domain. A driver that is both an [`OutputPin`] and a
/// [`StatefulOutputPin`] can instead opt in to the software implementation
/// through [`crate::toggleable::Default`].
pub trait ToggleableOutputPin {
    /// Error type produced by a failed toggle.
    type Error;

    /// The commanded drive state that [`ToggleableOutputPin::toggle`]
    /// flips: `true` for high, `false` for low.
    spec fn toggle_state_high(&self) -> bool;

    /// Flips the pin's commanded drive state.
    fn toggle(&mut self) -> (r: Result<(), Self::Error>)
        ensures
            r is Ok ==> final(self).toggle_state_high() == !old(self).toggle_state_high(),
    ;
}

/// Single digital input pin.
///
/// The two queries each report the implementation's notion of the logical
/// input level at call time; no caching or debouncing is implied. The
/// contracts deliberately do not tie `is_high` and `is_low` to each other:
/// a driver of a tri-state line may legally report `false` for both.
/// Complementarity is a conformance expectation on driver authors, checked
/// per driver, not a guarantee of this interface.
pub trait InputPin {
    /// Error type produced by the implementation's failed operations.
    type Error;

    /// Whether the implementation observes the input line as high.
    spec fn reads_high(&self) -> bool;

    /// Whether the implementation observes the input line as low.
    spec fn reads_low(&self) -> bool;

    /// Is the input pin high?
    fn is_high(&self) -> (r: Result<bool, Self::Error>)
        ensures
            r matches Ok(b) ==> b == self.reads_high(),
    ;

    /// Is the input pin low?
    fn is_low(&self) -> (r: Result<bool, Self::Error>)
        ensures
            r matches Ok(b) ==> b == self.reads_low(),
    ;
}

} // verus!
