//! Software `toggle` for pins that can write and read back their state.
//!
//! A driver that is both an [`OutputPin`] and a [`StatefulOutputPin`] can
//! obtain [`ToggleableOutputPin`] for free: read the commanded state, then
//! write its opposite. The behavior is opt-in through the empty marker
//! trait [`Default`], so a driver with a native hardware toggle is never
//! silently overridden and no type acquires two `toggle` definitions.
//!
//! The algorithm is split in two verified steps: [`plan_toggle`] decides
//! from the state read which write to perform, and [`run_toggle_action`]
//! performs it. Their contracts pin the error short-circuit down: a failed
//! read propagates its error unchanged and no write is attempted, so the
//! commanded state is left as it was.

use crate::digital::OutputPin;
use crate::digital::StatefulOutputPin;
use crate::digital::ToggleableOutputPin;
use vstd::prelude::*;

verus! {

/// Opt-in marker for the software `toggle` implementation.
///
/// A driver that implements [`OutputPin`] and [`StatefulOutputPin`] and
/// declares this trait obtains [`ToggleableOutputPin`] by reading the
/// commanded state back and writing its opposite. The derived `toggle`
/// carries the shared error type of the two base capabilities.
pub trait Default: OutputPin + StatefulOutputPin {
}

/// The single write that one software toggle performs, decided from the
/// commanded-state read.
pub enum ToggleAction<E> {
    /// The pin was commanded low: command it high.
    DriveHigh,
    /// The pin was commanded high: command it low.
    DriveLow,
    /// The read failed: perform no write and report this error.
    Abort(E),
}

/// Decides the write a software toggle performs from the result of the
/// driver's `is_set_low` read. A failed read aborts with the read's own
/// error before any write is planned.
pub fn plan_toggle<E>(read_set_low: Result<bool, E>) -> (action: ToggleAction<E>)
    ensures
        read_set_low == Ok::<bool, E>(true) ==> action is DriveHigh,
        read_set_low == Ok::<bool, E>(false) ==> action is DriveLow,
        read_set_low matches Err(e) ==> action == ToggleAction::Abort(e),
{
    match read_set_low {
        Ok(true) => ToggleAction::DriveHigh,
        Ok(false) => ToggleAction::DriveLow,
        Err(e) => ToggleAction::Abort(e),
    }
}

/// Performs the single write a software toggle decided on, or none at all.
/// In the drive cases the result and the final pin state are the driver
/// write's own outcome, handed through unmodified — no retry, no fallback,
/// no translation of its error. Aborting returns the read's error
/// unchanged and leaves the pin's commanded state exactly as it was.
pub fn run_toggle_action<P: OutputPin>(
    pin: &mut P,
    action: ToggleAction<P::Error>,
) -> (r: Result<(), P::Error>)
    ensures
        action is DriveHigh ==> old(pin).set_high_post(*final(pin), r),
        action is DriveLow ==> old(pin).set_low_post(*final(pin), r),
        action is DriveHigh && r is Ok ==> final(pin).commanded_high(),
        action is DriveLow && r is Ok ==> !final(pin).commanded_high(),
        action matches ToggleAction::Abort(e) ==> r == Err::<(), P::Error>(e)
            && *final(pin) == *old(pin),
{
    match action {
        ToggleAction::DriveHigh => pin.set_high(),
        ToggleAction::DriveLow => pin.set_low(),
        ToggleAction::Abort(e) => Err(e),
    }
}

impl<P: Default> ToggleableOutputPin for P {
    type Error = <P as OutputPin>::Error;

    /// The state the software toggle flips is the commanded drive state.
    open spec fn toggle_state_high(&self) -> bool {
        self.commanded_high()
    }

    /// Toggle pin output: read the commanded state, then command its
    /// opposite. Each error is propagated unchanged; a failed read
    /// short-circuits before any write.
    ///
    /// The ensures covers the two ways a call can go: either the read
    /// succeeded — it can only have reported the complement of the
    /// commanded state — and the result and final state are the driver's
    /// own outcome of the one opposite write, handed through unmodified;
    /// or the whole result is a read error, handed through with the pin
    /// untouched.
    fn toggle(&mut self) -> (r: Result<(), Self::Error>)
        ensures
            (old(self).is_set_low_post(Ok(!old(self).commanded_high()))
                && (if old(self).commanded_high() {
                    old(self).set_low_post(*final(self), r)
                } else {
                    old(self).set_high_post(*final(self), r)
                }))
            || (r matches Err(e)
                && old(self).is_set_low_post(Err(e))
                && *final(self) == *old(self)),
    {
        let read_set_low = self.is_set_low();
        let action = plan_toggle(read_set_low);
        run_toggle_action(self, action)
    }
}

} // verus!
