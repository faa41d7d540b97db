use lid_backlightd::device::{discover_device, Backlight};
use lid_backlightd::errors::{AccessError, DeviceError};

fn names(list: &[&str]) -> Vec<String> {
    list.iter().map(|s| s.to_string()).collect()
}

#[test]
fn discover_prefers_intel_backlight() {
    let devices = names(&["intel_backlight", "acpi_video0"]);
    let chosen = discover_device(&devices, None).unwrap();
    assert_eq!(chosen, "intel_backlight");
}

#[test]
fn discover_prefers_intel_backlight_whatever_the_order() {
    let devices = names(&["acpi_video0", "intel_backlight"]);
    let chosen = discover_device(&devices, None).unwrap();
    assert_eq!(chosen, "intel_backlight");
}

#[test]
fn discover_falls_back_to_lexicographically_smallest() {
    let devices = names(&["nv_backlight", "acpi_video0", "amdgpu_bl0"]);
    let chosen = discover_device(&devices, None).unwrap();
    assert_eq!(chosen, "acpi_video0");
}

#[test]
fn discover_empty_enumeration_fails() {
    let devices: Vec<String> = Vec::new();
    assert_eq!(discover_device(&devices, None), Err(DeviceError::NoDevicesFound));
}

#[test]
fn discover_override_present_wins_over_preference() {
    let devices = names(&["intel_backlight", "acpi_video0"]);
    let requested = "acpi_video0".to_string();
    let chosen = discover_device(&devices, Some(&requested)).unwrap();
    assert_eq!(chosen, "acpi_video0");
}

#[test]
fn discover_override_missing_fails() {
    let devices = names(&["intel_backlight", "acpi_video0"]);
    let requested = "nv_backlight".to_string();
    assert_eq!(
        discover_device(&devices, Some(&requested)),
        Err(DeviceError::RequestedDeviceNotFound)
    );
}

#[test]
fn backlight_new_keeps_max_brightness() {
    let device = Backlight::new("intel_backlight".to_string(), Ok(937)).unwrap();
    assert_eq!(device.name, "intel_backlight");
    assert_eq!(device.max_brightness, 937);
}

#[test]
fn backlight_new_wraps_failed_max_read() {
    let err = Backlight::new(
        "intel_backlight".to_string(),
        Err(AccessError::IoError { not_found: true }),
    )
    .unwrap_err();
    assert_eq!(
        err,
        DeviceError::DeviceInitError(AccessError::IoError { not_found: true })
    );
}
