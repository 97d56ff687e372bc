use rustd3d::driver::{
    on_attempt_result, select_device, start_selection, DeviceSelection, DriverKind,
    SUCCESS_STATUS, UNSUPPORTED_CONFIGURATION,
};

#[test]
fn hardware_success_needs_no_fallback() {
    let s = select_device(&vec![SUCCESS_STATUS]);
    assert_eq!(
        s,
        DeviceSelection::Selected { driver: DriverKind::Hardware, fallback_used: false }
    );
}

#[test]
fn unsupported_configuration_falls_back_exactly_once() {
    let start = start_selection();
    // the preferred driver reports the unsupported-configuration status
    let retry = on_attempt_result(start, UNSUPPORTED_CONFIGURATION);
    assert_eq!(
        retry,
        DeviceSelection::Attempting { driver: DriverKind::Software, fallback_used: true }
    );
    // the single fallback attempt, with the software driver, succeeds
    let done = on_attempt_result(retry, SUCCESS_STATUS);
    assert_eq!(
        done,
        DeviceSelection::Selected { driver: DriverKind::Software, fallback_used: true }
    );
}

#[test]
fn other_failures_surface_unchanged_with_no_fallback() {
    let device_removed: u32 = 0x887a_0005;
    // even with a would-be-successful retry on offer, no fallback happens
    let s = select_device(&vec![device_removed, SUCCESS_STATUS]);
    assert_eq!(s, DeviceSelection::Failed { status: device_removed });
}

#[test]
fn a_failed_retry_is_fatal() {
    let s = select_device(&vec![UNSUPPORTED_CONFIGURATION, UNSUPPORTED_CONFIGURATION]);
    assert_eq!(s, DeviceSelection::Failed { status: UNSUPPORTED_CONFIGURATION });
}

#[test]
fn unsupported_on_the_software_driver_does_not_loop() {
    let retry = DeviceSelection::Attempting { driver: DriverKind::Software, fallback_used: true };
    let s = on_attempt_result(retry, UNSUPPORTED_CONFIGURATION);
    assert_eq!(s, DeviceSelection::Failed { status: UNSUPPORTED_CONFIGURATION });
}

#[test]
fn selection_over_a_whole_status_run() {
    let s = select_device(&vec![UNSUPPORTED_CONFIGURATION, SUCCESS_STATUS, 0xdead_beef]);
    // the status after the selecting attempt is ignored
    assert_eq!(
        s,
        DeviceSelection::Selected { driver: DriverKind::Software, fallback_used: true }
    );
}
