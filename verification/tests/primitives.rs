use buttplug::comm_manager::ScanningState;
use buttplug::errors::{device_not_found_error, u32_to_decimal, ButtplugError};
use buttplug::future::ButtplugFutureState;
use buttplug::messages::{ButtplugServerMessage, VibrateSubcommand};

#[test]
fn decimal_notation_is_exact() {
    assert_eq!(u32_to_decimal(0), "0");
    assert_eq!(u32_to_decimal(7), "7");
    assert_eq!(u32_to_decimal(10), "10");
    assert_eq!(u32_to_decimal(99), "99");
    assert_eq!(u32_to_decimal(256), "256");
    assert_eq!(u32_to_decimal(4294967295), "4294967295");
}

#[test]
fn device_not_found_message_is_exact() {
    assert_eq!(
        device_not_found_error(99),
        ButtplugError::DeviceError("No device with index 99 available".to_string())
    );
    assert_eq!(
        device_not_found_error(0),
        ButtplugError::DeviceError("No device with index 0 available".to_string())
    );
}

#[test]
fn reply_cell_round_trip() {
    let mut cell: ButtplugFutureState<u32> = ButtplugFutureState::new();
    // polling before the reply yields nothing
    assert_eq!(cell.take_reply(), None);
    cell.set_reply(17);
    assert_eq!(cell.take_reply(), Some(17));
}

#[test]
fn scanning_is_idempotent() {
    let mut scan = ScanningState::new();
    assert!(!scan.scanning);
    scan.start_scanning();
    scan.start_scanning();
    assert!(scan.scanning);
    // the first finish emits the message, a second one does not
    assert_eq!(scan.finish_scanning(), Some(ButtplugServerMessage::ScanningFinished));
    assert_eq!(scan.finish_scanning(), None);
    // stopping is idempotent too
    scan.start_scanning();
    scan.stop_scanning();
    scan.stop_scanning();
    assert!(!scan.scanning);
    assert_eq!(scan.finish_scanning(), None);
}

#[test]
fn vibrate_subcommand_holds_its_fields() {
    let sub = VibrateSubcommand::new(0, 500);
    assert_eq!(sub.index, 0);
    assert_eq!(sub.speed, 500);
}
