use embedded_hal::digital::into_ok;
use embedded_hal::digital::InputPin;
use embedded_hal::digital::OutputPin;
use embedded_hal::digital::StatefulOutputPin;
use embedded_hal::digital::ToggleableOutputPin;
use embedded_hal::soft::FaultyPin;
use embedded_hal::soft::SoftInputPin;
use embedded_hal::soft::SoftPin;
use embedded_hal::toggleable::plan_toggle;
use embedded_hal::toggleable::run_toggle_action;
use embedded_hal::toggleable::ToggleAction;

#[test]
fn software_pin_toggle_from_low() {
    let mut pin = SoftPin::new(false);
    into_ok(pin.toggle());
    assert!(into_ok(pin.is_set_high()));
    assert!(!into_ok(pin.is_set_low()));
}

#[test]
fn software_pin_toggle_back() {
    let mut pin = SoftPin::new(false);
    into_ok(pin.toggle());
    into_ok(pin.toggle());
    assert!(into_ok(pin.is_set_low()));
    assert!(!into_ok(pin.is_set_high()));
}

#[test]
fn failing_write_returns_error_and_keeps_state() {
    let mut pin = FaultyPin {
        high: false,
        fail_reads: false,
        fail_writes: true,
        code: 17,
    };
    assert_eq!(pin.toggle(), Err(17));
    assert_eq!(pin.is_set_low(), Ok(true));
    assert_eq!(pin.is_set_high(), Ok(false));
    assert!(!pin.fail_reads);
    assert!(pin.fail_writes);
    assert_eq!(pin.code, 17);
}

#[test]
fn failing_read_short_circuits() {
    let mut pin = FaultyPin {
        high: true,
        fail_reads: true,
        fail_writes: false,
        code: 9,
    };
    assert_eq!(pin.toggle(), Err(9));
    assert!(!pin.fail_writes);
    assert_eq!(pin.code, 9);
    pin.fail_reads = false;
    assert_eq!(pin.is_set_high(), Ok(true));
    assert_eq!(pin.is_set_low(), Ok(false));
}

#[test]
fn input_pin_reports_complements() {
    let high_line = SoftInputPin { high: true };
    assert!(into_ok(high_line.is_high()));
    assert!(!into_ok(high_line.is_low()));

    let low_line = SoftInputPin { high: false };
    assert!(!into_ok(low_line.is_high()));
    assert!(into_ok(low_line.is_low()));
}

#[test]
fn infallible_operations_always_succeed() {
    let mut pin = SoftPin::new(true);
    into_ok(pin.set_low());
    into_ok(pin.set_high());
    into_ok(pin.toggle());
    assert!(pin.set_low().is_ok());
    assert!(pin.is_set_low().is_ok());
}

#[test]
fn write_then_read_back() {
    let mut pin = SoftPin::new(false);
    into_ok(pin.set_high());
    assert!(into_ok(pin.is_set_high()));
    assert!(!into_ok(pin.is_set_low()));
    into_ok(pin.set_low());
    assert!(into_ok(pin.is_set_low()));
    assert!(!into_ok(pin.is_set_high()));

    let mut healthy = FaultyPin {
        high: false,
        fail_reads: false,
        fail_writes: false,
        code: 1,
    };
    assert_eq!(healthy.set_high(), Ok(()));
    assert_eq!(healthy.is_set_high(), Ok(true));
    assert_eq!(healthy.is_set_low(), Ok(false));
}

#[test]
fn toggle_round_trip() {
    let mut pin = SoftPin::new(true);
    into_ok(pin.toggle());
    assert!(into_ok(pin.is_set_low()));
    into_ok(pin.toggle());
    assert!(into_ok(pin.is_set_high()));

    let mut healthy = FaultyPin {
        high: false,
        fail_reads: false,
        fail_writes: false,
        code: 1,
    };
    assert_eq!(healthy.toggle(), Ok(()));
    assert_eq!(healthy.toggle(), Ok(()));
    assert_eq!(healthy.is_set_low(), Ok(true));
}

#[test]
fn plan_toggle_decides_write() {
    assert!(matches!(plan_toggle::<u8>(Ok(true)), ToggleAction::DriveHigh));
    assert!(matches!(plan_toggle::<u8>(Ok(false)), ToggleAction::DriveLow));
    assert!(matches!(plan_toggle::<u8>(Err(3)), ToggleAction::Abort(3)));
}

#[test]
fn run_toggle_action_drives_pin() {
    let mut pin = SoftPin::new(false);
    into_ok(run_toggle_action(&mut pin, ToggleAction::DriveHigh));
    assert!(into_ok(pin.is_set_high()));
    into_ok(run_toggle_action(&mut pin, ToggleAction::DriveLow));
    assert!(into_ok(pin.is_set_low()));

    let mut faulty = FaultyPin {
        high: true,
        fail_reads: false,
        fail_writes: false,
        code: 2,
    };
    assert_eq!(run_toggle_action(&mut faulty, ToggleAction::Abort(5)), Err(5));
    assert_eq!(faulty.is_set_high(), Ok(true));

    faulty.fail_writes = true;
    assert_eq!(run_toggle_action(&mut faulty, ToggleAction::DriveLow), Err(2));
    assert_eq!(faulty.is_set_high(), Ok(true));
}
