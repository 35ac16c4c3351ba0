//! The laws the pin contracts give every conforming driver.
//!
//! Each proof function here states a consequence of the trait contracts in
//! [`crate::digital`] over the ghost models those contracts are written
//! in, so the guarantee is on record rather than left implicit.

use crate::digital::StatefulOutputPin;
use crate::digital::ToggleableOutputPin;
use vstd::prelude::*;

verus! {

/// After a successful write, the commanded-state read-backs can only agree
/// with it: on a pin commanded high (as every successful `set_high`
/// leaves it), a successful `is_set_high` reports `true` and a successful
/// `is_set_low` reports `false`, and symmetrically for a pin commanded
/// low. The hypotheses are exactly what the [`StatefulOutputPin`]
/// contracts promise of the two read results.
pub proof fn lemma_write_then_read_back<P: StatefulOutputPin>(
    pin: P,
    read_high: Result<bool, P::Error>,
    read_low: Result<bool, P::Error>,
)
    requires
        read_high matches Ok(b) ==> b == pin.commanded_high(),
        read_low matches Ok(b) ==> b == !pin.commanded_high(),
    ensures
        pin.commanded_high() ==> (read_high matches Ok(b) ==> b)
            && (read_low matches Ok(b) ==> !b),
        !pin.commanded_high() ==> (read_high matches Ok(b) ==> !b)
            && (read_low matches Ok(b) ==> b),
{
}

/// One successful toggle flips the commanded state, so two successful
/// toggles in a row restore it: the hypotheses are what
/// [`ToggleableOutputPin::toggle`] promises of each successful call, and
/// the conclusion is the round trip back to the original state.
pub proof fn lemma_toggle_round_trip<P: ToggleableOutputPin>(start: P, once: P, twice: P)
    requires
        once.toggle_state_high() == !start.toggle_state_high(),
        twice.toggle_state_high() == !once.toggle_state_high(),
    ensures
        twice.toggle_state_high() == start.toggle_state_high(),
{
}

} // verus!
