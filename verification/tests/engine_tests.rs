use lid_backlightd::device::{discover_device, Backlight};
use lid_backlightd::engine::{LidAction, State};
use lid_backlightd::errors::{AccessError, DeviceError};

fn io_gone() -> AccessError {
    AccessError::IoError { not_found: true }
}

fn io_denied() -> AccessError {
    AccessError::IoError { not_found: false }
}

fn state_with_device(max_brightness: u32, restore_min: u32) -> State {
    let mut state = State::new(restore_min);
    let device = Backlight::new("intel_backlight".to_string(), Ok(max_brightness)).unwrap();
    state.ensure_device(Ok(device)).unwrap();
    state
}

#[test]
fn dim_writes_zero_then_one() {
    assert_eq!(lid_backlightd::engine::dim_values(), (0, 1));
}

#[test]
fn close_takes_snapshot_and_dims() {
    let mut state = state_with_device(100, 1);
    assert_eq!(state.handle_lid_change(true), LidAction::Dim);
    let report = state.on_lid_close(80, Ok(()), None, 0);
    assert!(report.dimmed);
    assert_eq!(state.saved_brightness, Some(80));
}

#[test]
fn repeated_close_is_a_no_op() {
    let mut state = state_with_device(100, 1);
    state.on_lid_close(80, Ok(()), None, 0);
    // A duplicate closed event asks for nothing: no new snapshot is read.
    assert_eq!(state.handle_lid_change(true), LidAction::Nothing);
    assert_eq!(state.saved_brightness, Some(80));
}

#[test]
fn open_restores_and_clears() {
    let mut state = state_with_device(100, 1);
    state.on_lid_close(80, Ok(()), None, 0);
    assert_eq!(state.handle_lid_change(false), LidAction::Restore);
    assert_eq!(state.restore_target(), 80);
    let report = state.on_lid_open(Ok(()), 0);
    assert!(report.restored);
    assert_eq!(state.saved_brightness, None);
}

#[test]
fn repeated_open_is_a_no_op() {
    let mut state = state_with_device(100, 1);
    state.on_lid_close(80, Ok(()), None, 0);
    state.on_lid_open(Ok(()), 0);
    // After one successful restore, further open events write nothing.
    assert_eq!(state.handle_lid_change(false), LidAction::Nothing);
    assert_eq!(state.saved_brightness, None);
}

#[test]
fn open_with_nothing_saved_is_a_no_op() {
    let state = state_with_device(100, 1);
    assert_eq!(state.handle_lid_change(false), LidAction::Nothing);
}

#[test]
fn restore_clamps_to_saved_value() {
    let mut state = state_with_device(100, 1);
    state.on_lid_close(50, Ok(()), None, 0);
    assert_eq!(state.restore_target(), 50);
}

#[test]
fn restore_clamps_zero_up_to_floor() {
    let mut state = state_with_device(100, 1);
    state.on_lid_close(0, Ok(()), None, 0);
    assert_eq!(state.restore_target(), 1);
}

#[test]
fn restore_clamps_below_floor_up() {
    let mut state = state_with_device(100, 10);
    state.on_lid_close(5, Ok(()), None, 0);
    assert_eq!(state.restore_target(), 10);
}

#[test]
fn restore_floor_is_capped_by_device_maximum() {
    let mut state = state_with_device(8, 10);
    state.on_lid_close(5, Ok(()), None, 0);
    assert_eq!(state.restore_target(), 8);
}

#[test]
fn failed_restore_keeps_saved_brightness() {
    let mut state = state_with_device(100, 1);
    state.on_lid_close(80, Ok(()), None, 0);
    let report = state.on_lid_open(Err(io_denied()), 0);
    assert!(!report.restored);
    assert_eq!(state.saved_brightness, Some(80));
    // The retry writes the very same value.
    assert_eq!(state.restore_target(), 80);
}

#[test]
fn fallback_dim_counts_as_dimmed() {
    let mut state = state_with_device(100, 1);
    let report = state.on_lid_close(80, Err(io_denied()), Some(Ok(())), 0);
    assert!(report.dimmed);
    assert_eq!(state.saved_brightness, Some(80));
}

#[test]
fn both_dim_writes_failing_keeps_saved_brightness() {
    let mut state = state_with_device(100, 1);
    let report = state.on_lid_close(80, Err(io_denied()), Some(Err(io_denied())), 0);
    assert!(!report.dimmed);
    // A later open still attempts a restore of the pre-close value.
    assert_eq!(state.saved_brightness, Some(80));
    assert_eq!(state.handle_lid_change(false), LidAction::Restore);
    assert_eq!(state.restore_target(), 80);
}

#[test]
fn not_found_error_invalidates_device() {
    let mut state = state_with_device(100, 1);
    assert!(!state.needs_device());
    state.handle_device_error(&DeviceError::AccessFailed(io_gone()), 0);
    // The next lid event must rediscover before proceeding.
    assert!(state.needs_device());
}

#[test]
fn other_errors_keep_the_device() {
    let mut state = state_with_device(100, 1);
    state.handle_device_error(&DeviceError::AccessFailed(io_denied()), 0);
    assert!(!state.needs_device());
    state.handle_device_error(&DeviceError::AccessFailed(AccessError::ParseError), 0);
    assert!(!state.needs_device());
}

#[test]
fn not_found_during_dim_invalidates_device_and_rediscovery_follows() {
    let mut state = state_with_device(100, 1);
    state.on_lid_close(80, Err(io_gone()), Some(Err(io_gone())), 0);
    assert!(state.needs_device());
    // The next event proceeds after a fresh discovery is installed.
    let replacement = Backlight::new("acpi_video0".to_string(), Ok(100)).unwrap();
    state.ensure_device(Ok(replacement)).unwrap();
    assert!(!state.needs_device());
    assert_eq!(state.restore_target(), 80);
}

#[test]
fn device_error_logging_is_rate_limited() {
    let mut state = State::new(1);
    assert!(state.log_device_error(0));
    assert!(!state.log_device_error(10_000));
    assert!(!state.log_device_error(29_999));
    assert!(state.log_device_error(30_000));
    assert!(!state.log_device_error(30_001));
    // A clock that runs backwards counts as no elapsed time.
    assert!(!state.log_device_error(0));
}

#[test]
fn ensure_device_keeps_an_existing_device() {
    let mut state = state_with_device(100, 1);
    let other = Backlight::new("acpi_video0".to_string(), Ok(50)).unwrap();
    state.ensure_device(Ok(other)).unwrap();
    assert_eq!(state.restore_min, 1);
    assert_eq!(state.device.as_ref().unwrap().max_brightness, 100);
}

#[test]
fn ensure_device_propagates_discovery_failure() {
    let mut state = State::new(1);
    let result = state.ensure_device(Err(DeviceError::NoDevicesFound));
    assert_eq!(result, Err(DeviceError::NoDevicesFound));
    assert!(state.needs_device());
}

#[test]
fn restore_on_exit_exactly_when_something_is_saved() {
    let mut state = state_with_device(100, 1);
    assert!(!state.restore_on_exit());
    state.on_lid_close(80, Ok(()), None, 0);
    assert!(state.restore_on_exit());
    state.on_lid_open(Ok(()), 0);
    assert!(!state.restore_on_exit());
}

#[test]
fn end_to_end_lid_cycle() {
    let devices = vec!["intel_backlight".to_string(), "acpi_video0".to_string()];
    let name = discover_device(&devices, None).unwrap();
    assert_eq!(name, "intel_backlight");
    let device = Backlight::new(name, Ok(255)).unwrap();
    let mut state = State::new(1);
    state.ensure_device(Ok(device)).unwrap();

    assert_eq!(state.handle_lid_change(true), LidAction::Dim);
    // Current brightness reads 80; writing 0 succeeds.
    let report = state.on_lid_close(80, Ok(()), None, 0);
    assert!(report.dimmed);
    assert_eq!(state.saved_brightness, Some(80));

    assert_eq!(state.handle_lid_change(false), LidAction::Restore);
    assert_eq!(state.restore_target(), 80);
    let report = state.on_lid_open(Ok(()), 0);
    assert!(report.restored);
    assert_eq!(state.saved_brightness, None);
}
