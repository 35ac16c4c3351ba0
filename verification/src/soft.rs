//! Software-only pins: virtual lines with no hardware behind them.
//!
//! [`SoftPin`] is an output pin that exists purely in software and cannot
//! fail; it opts in to the derived software toggle. [`FaultyPin`] is the
//! same pin with fault injection: reads or writes can be made to fail with
//! a fixed error code, for exercising the error paths of code built on the
//! pin contracts. [`SoftInputPin`] is an input line frozen at one level
//! that reports high and low as complements.

use crate::digital::InputPin;
use crate::digital::Never;
use crate::digital::OutputPin;
use crate::digital::StatefulOutputPin;
use vstd::prelude::*;

verus! {

/// A virtual output pin that exists purely in software and never fails.
pub struct SoftPin {
    /// The commanded drive state: `true` for high, `false` for low.
    pub high: bool,
}

impl SoftPin {
    /// A software pin commanded to the given level.
    pub fn new(high: bool) -> (pin: SoftPin)
        ensures
            pin.commanded_high() == high,
    {
        SoftPin { high }
    }
}

impl OutputPin for SoftPin {
    type Error = Never;

    open spec fn commanded_high(&self) -> bool {
        self.high
    }

    open spec fn set_low_post(&self, post: Self, r: Result<(), Never>) -> bool {
        r is Ok && post == (SoftPin { high: false })
    }

    open spec fn set_high_post(&self, post: Self, r: Result<(), Never>) -> bool {
        r is Ok && post == (SoftPin { high: true })
    }

    fn set_low(&mut self) -> (r: Result<(), Never>) {
        self.high = false;
        Ok(())
    }

    fn set_high(&mut self) -> (r: Result<(), Never>) {
        self.high = true;
        Ok(())
    }
}

impl StatefulOutputPin for SoftPin {
    open spec fn is_set_high_post(&self, r: Result<bool, Never>) -> bool {
        r == Ok::<bool, Never>(self.high)
    }

    open spec fn is_set_low_post(&self, r: Result<bool, Never>) -> bool {
        r == Ok::<bool, Never>(!self.high)
    }

    fn is_set_high(&self) -> (r: Result<bool, Never>) {
        Ok(self.high)
    }

    fn is_set_low(&self) -> (r: Result<bool, Never>) {
        Ok(!self.high)
    }
}

impl crate::toggleable::Default for SoftPin {
}

/// A software pin with fault injection: reads of the commanded state fail
/// while `fail_reads` is set, writes fail while `fail_writes` is set, each
/// with the fixed error code `code`. A failed operation leaves the
/// commanded state untouched.
pub struct FaultyPin {
    /// The commanded drive state: `true` for high, `false` for low.
    pub high: bool,
    /// Make `is_set_high` and `is_set_low` fail.
    pub fail_reads: bool,
    /// Make `set_high` and `set_low` fail.
    pub fail_writes: bool,
    /// The error code every injected failure carries.
    pub code: u8,
}

impl FaultyPin {
    /// The pin of `pre` with only its commanded state replaced: an
    /// injected failure never changes the fault flags or the error code,
    /// and neither does a successful write.
    pub open spec fn with_high(pre: FaultyPin, high: bool) -> FaultyPin {
        FaultyPin {
            high,
            fail_reads: pre.fail_reads,
            fail_writes: pre.fail_writes,
            code: pre.code,
        }
    }
}

impl OutputPin for FaultyPin {
    type Error = u8;

    open spec fn commanded_high(&self) -> bool {
        self.high
    }

    open spec fn set_low_post(&self, post: Self, r: Result<(), u8>) -> bool {
        if self.fail_writes {
            r == Err::<(), u8>(self.code) && post == *self
        } else {
            r == Ok::<(), u8>(()) && post == FaultyPin::with_high(*self, false)
        }
    }

    open spec fn set_high_post(&self, post: Self, r: Result<(), u8>) -> bool {
        if self.fail_writes {
            r == Err::<(), u8>(self.code) && post == *self
        } else {
            r == Ok::<(), u8>(()) && post == FaultyPin::with_high(*self, true)
        }
    }

    fn set_low(&mut self) -> (r: Result<(), u8>) {
        if self.fail_writes {
            Err(self.code)
        } else {
            self.high = false;
            Ok(())
        }
    }

    fn set_high(&mut self) -> (r: Result<(), u8>) {
        if self.fail_writes {
            Err(self.code)
        } else {
            self.high = true;
            Ok(())
        }
    }
}

impl StatefulOutputPin for FaultyPin {
    open spec fn is_set_high_post(&self, r: Result<bool, u8>) -> bool {
        if self.fail_reads {
            r == Err::<bool, u8>(self.code)
        } else {
            r == Ok::<bool, u8>(self.high)
        }
    }

    open spec fn is_set_low_post(&self, r: Result<bool, u8>) -> bool {
        if self.fail_reads {
            r == Err::<bool, u8>(self.code)
        } else {
            r == Ok::<bool, u8>(!self.high)
        }
    }

    fn is_set_high(&self) -> (r: Result<bool, u8>) {
        if self.fail_reads {
            Err(self.code)
        } else {
            Ok(self.high)
        }
    }

    fn is_set_low(&self) -> (r: Result<bool, u8>) {
        if self.fail_reads {
            Err(self.code)
        } else {
            Ok(!self.high)
        }
    }
}

impl crate::toggleable::Default for FaultyPin {
}

/// A virtual input line frozen at one logical level.
///
/// It reports high and low as logical complements, the conformance
/// expectation the [`InputPin`] contracts place on driver authors without
/// enforcing it.
pub struct SoftInputPin {
    /// The logical level of the line: `true` for high, `false` for low.
    pub high: bool,
}

impl InputPin for SoftInputPin {
    type Error = Never;

    open spec fn reads_high(&self) -> bool {
        self.high
    }

    open spec fn reads_low(&self) -> bool {
        !self.high
    }

    fn is_high(&self) -> (r: Result<bool, Never>)
        ensures
            r == Ok::<bool, Never>(self.reads_high()),
    {
        Ok(self.high)
    }

    fn is_low(&self) -> (r: Result<bool, Never>)
        ensures
            r == Ok::<bool, Never>(self.reads_low()),
    {
        Ok(!self.high)
    }
}

} // verus!
