//! Capability contracts for embedded digital I/O pins.
//!
//! The traits here describe what a driver for a single digital pin must
//! promise: driving a logical level ([`digital::OutputPin`]), reading a
//! logical level ([`digital::InputPin`]), reading back the last commanded
//! level ([`digital::StatefulOutputPin`]), and flipping the commanded level
//! ([`digital::ToggleableOutputPin`]). Every operation is fallible, with an
//! error type chosen by the implementation; infallible drivers use the
//! uninhabited [`digital::Never`] so callers can prove no error path exists.
//!
//! A driver that can both write and read back its commanded state may opt in
//! to a software `toggle` implementation through [`toggleable::Default`].
//! Software-only pins for virtual wiring and conformance testing live in
//! [`soft`].

pub mod digital;
pub mod laws;
pub mod soft;
pub mod toggleable;
