use buttplug::errors::ButtplugError;
use buttplug::hardware::{
    BleWriteKind, BleWriteOp, BluetoothLESpecifier, BridgeInput, BtlePlugHardware,
    BtleplugHardwareConnector, BtleplugHardwareSpecializer, ConnectStep, DeviceService,
    EndpointMap, HardwareEvent, HardwareReadCmd, HardwareSubscribeCmd, HardwareUnsubscribeCmd,
    HardwareWriteCmd, ProtocolBleService, ProtocolCommunicationSpecifier, RawReading,
    connect_phase_after_check, connect_phase_after_connect, connect_phase_after_discover,
};
use buttplug::messages::Endpoint;

const SERVICE: u128 = 0x1000;
const TX_CHR: u128 = 0x2001;
const RX_CHR: u128 = 0x2002;

fn specializer() -> BtleplugHardwareSpecializer {
    BtleplugHardwareSpecializer::new("Dev", "aa:bb".to_string())
}

fn proto_specifier() -> ProtocolCommunicationSpecifier {
    ProtocolCommunicationSpecifier::BluetoothLE(BluetoothLESpecifier {
        name: "Dev".to_string(),
        services: vec![ProtocolBleService {
            service_uuid: SERVICE,
            characteristics: vec![(Endpoint::Tx, TX_CHR), (Endpoint::Rx, RX_CHR)],
        }],
    })
}

fn device_services() -> Vec<DeviceService> {
    vec![DeviceService { uuid: SERVICE, characteristics: vec![TX_CHR, RX_CHR] }]
}

fn specialized_map() -> EndpointMap {
    specializer()
        .specialize(&vec![proto_specifier()], &device_services())
        .unwrap()
}

#[test]
fn specialize_binds_offered_characteristics() {
    let map = specialized_map();
    assert_eq!(map.characteristic_for(Endpoint::Tx), Some(TX_CHR));
    assert_eq!(map.characteristic_for(Endpoint::Rx), Some(RX_CHR));
    assert_eq!(map.characteristic_for(Endpoint::Command), None);
    assert_eq!(map.endpoint_for_uuid(TX_CHR), Some(Endpoint::Tx));
    assert_eq!(map.endpoint_for_uuid(0x9999), None);
}

#[test]
fn specialize_skips_missing_characteristics() {
    let sp = specializer();
    let offered = vec![DeviceService { uuid: SERVICE, characteristics: vec![TX_CHR] }];
    let map = sp.specialize(&vec![proto_specifier()], &offered).unwrap();
    assert_eq!(map.characteristic_for(Endpoint::Tx), Some(TX_CHR));
    assert_eq!(map.characteristic_for(Endpoint::Rx), None);
}

#[test]
fn specialize_without_ble_specifier_fails() {
    let sp = specializer();
    let err = sp
        .specialize(
            &vec![ProtocolCommunicationSpecifier::Serial { port: "COM1".to_string() }],
            &device_services(),
        )
        .unwrap_err();
    assert_eq!(
        err,
        ButtplugError::DeviceConnectionError(
            "Can't find btle protocol specifier mapping for device Dev aa:bb".to_string()
        )
    );
}

#[test]
fn write_resolves_endpoint_and_kind() {
    let hw = BtlePlugHardware::new("Dev", "aa:bb".to_string(), specialized_map());
    let op = hw
        .write_value(HardwareWriteCmd {
            endpoint: Endpoint::Tx,
            data: vec![0x56, 0x3a],
            write_with_response: false,
        })
        .unwrap();
    assert_eq!(
        op,
        BleWriteOp {
            characteristic_uuid: TX_CHR,
            data: vec![0x56, 0x3a],
            write_kind: BleWriteKind::WithoutResponse,
        }
    );
    let op = hw
        .write_value(HardwareWriteCmd {
            endpoint: Endpoint::Tx,
            data: vec![1],
            write_with_response: true,
        })
        .unwrap();
    assert_eq!(op.write_kind, BleWriteKind::WithResponse);
}

#[test]
fn unbound_endpoint_is_invalid() {
    let hw = BtlePlugHardware::new("Dev", "aa:bb".to_string(), specialized_map());
    let err = hw
        .write_value(HardwareWriteCmd {
            endpoint: Endpoint::Firmware,
            data: vec![],
            write_with_response: false,
        })
        .unwrap_err();
    assert_eq!(err, ButtplugError::InvalidEndpoint(Endpoint::Firmware));
    let err = hw
        .read_value(HardwareReadCmd { endpoint: Endpoint::Firmware, length: 4, timeout_ms: 100 })
        .unwrap_err();
    assert_eq!(err, ButtplugError::InvalidEndpoint(Endpoint::Firmware));
    let err = hw.subscribe(HardwareSubscribeCmd { endpoint: Endpoint::Firmware }).unwrap_err();
    assert_eq!(err, ButtplugError::InvalidEndpoint(Endpoint::Firmware));
    let err = hw.unsubscribe(HardwareUnsubscribeCmd { endpoint: Endpoint::Firmware }).unwrap_err();
    assert_eq!(err, ButtplugError::InvalidEndpoint(Endpoint::Firmware));
}

#[test]
fn read_and_subscribe_resolve_to_characteristics() {
    let hw = BtlePlugHardware::new("Dev", "aa:bb".to_string(), specialized_map());
    assert_eq!(
        hw.read_value(HardwareReadCmd { endpoint: Endpoint::Rx, length: 4, timeout_ms: 100 }),
        Ok(RX_CHR)
    );
    assert_eq!(hw.subscribe(HardwareSubscribeCmd { endpoint: Endpoint::Rx }), Ok(RX_CHR));
    assert_eq!(hw.unsubscribe(HardwareUnsubscribeCmd { endpoint: Endpoint::Rx }), Ok(RX_CHR));
}

#[test]
fn completed_transport_calls_map_outcomes() {
    assert_eq!(BtlePlugHardware::complete_write(Ok(())), Ok(()));
    assert_eq!(
        BtlePlugHardware::complete_write(Err("bus fault".to_string())),
        Err(ButtplugError::DeviceSpecificError("bus fault".to_string()))
    );
    assert_eq!(
        BtlePlugHardware::complete_read(Endpoint::Rx, Ok(vec![1, 2])),
        Ok(RawReading { device_index: 0, endpoint: Endpoint::Rx, data: vec![1, 2] })
    );
    assert_eq!(
        BtlePlugHardware::complete_read(Endpoint::Rx, Err("gone".to_string())),
        Err(ButtplugError::DeviceSpecificError("gone".to_string()))
    );
}

#[test]
fn bridge_broadcasts_known_notifications() {
    let mut hw = BtlePlugHardware::new("Dev", "aa:bb".to_string(), specialized_map());
    let out = hw.handle_bridge_event(
        BridgeInput::Notification { uuid: RX_CHR, value: vec![9, 9] },
        1,
    );
    assert_eq!(
        out.emit,
        Some(HardwareEvent::Notification("aa:bb".to_string(), Endpoint::Rx, vec![9, 9]))
    );
    assert!(!out.exit);
    assert!(!out.log_unknown_uuid);
}

#[test]
fn bridge_drops_without_subscribers() {
    let mut hw = BtlePlugHardware::new("Dev", "aa:bb".to_string(), specialized_map());
    let out = hw.handle_bridge_event(
        BridgeInput::Notification { uuid: RX_CHR, value: vec![9] },
        0,
    );
    assert_eq!(out.emit, None);
    assert!(!out.exit);
}

#[test]
fn bridge_logs_unknown_uuid_once() {
    let mut hw = BtlePlugHardware::new("Dev", "aa:bb".to_string(), specialized_map());
    let out = hw.handle_bridge_event(BridgeInput::Notification { uuid: 0x777, value: vec![] }, 1);
    assert!(out.log_unknown_uuid);
    assert_eq!(out.emit, None);
    let out = hw.handle_bridge_event(BridgeInput::Notification { uuid: 0x777, value: vec![] }, 1);
    assert!(!out.log_unknown_uuid);
    assert_eq!(out.emit, None);
}

#[test]
fn bridge_exits_on_own_disconnection_only() {
    let mut hw = BtlePlugHardware::new("Dev", "aa:bb".to_string(), specialized_map());
    let out = hw.handle_bridge_event(
        BridgeInput::CentralDeviceDisconnected { address: "cc:dd".to_string() },
        1,
    );
    assert_eq!(out.emit, None);
    assert!(!out.exit);
    let out = hw.handle_bridge_event(
        BridgeInput::CentralDeviceDisconnected { address: "aa:bb".to_string() },
        1,
    );
    assert_eq!(out.emit, Some(HardwareEvent::Disconnected("aa:bb".to_string())));
    assert!(out.exit);
    let out = hw.handle_bridge_event(BridgeInput::OtherCentralEvent, 1);
    assert_eq!(out.emit, None);
    assert!(!out.exit);
}

#[test]
fn connector_advertises_its_services() {
    let conn = BtleplugHardwareConnector::new("Dev", &vec![SERVICE], "aa:bb".to_string());
    match conn.specifier() {
        ProtocolCommunicationSpecifier::BluetoothLE(b) => {
            assert_eq!(b.name, "Dev");
            assert_eq!(b.services.len(), 1);
            assert_eq!(b.services[0].service_uuid, SERVICE);
            assert!(b.services[0].characteristics.is_empty());
        }
        other => panic!("expected a Bluetooth LE specifier, got {:?}", other),
    }
}

#[test]
fn connect_phases_follow_outcomes() {
    assert_eq!(connect_phase_after_check(true), ConnectStep::Specialize);
    assert_eq!(connect_phase_after_check(false), ConnectStep::Connect);
    assert_eq!(connect_phase_after_connect(Ok(())), Ok(ConnectStep::DiscoverServices));
    assert_eq!(
        connect_phase_after_connect(Err("refused".to_string())),
        Err(ButtplugError::DeviceSpecificError("refused".to_string()))
    );
    assert_eq!(connect_phase_after_discover(Ok(())), Ok(ConnectStep::Specialize));
    assert_eq!(
        connect_phase_after_discover(Err("timed out".to_string())),
        Err(ButtplugError::DeviceConnectionError(
            "BTLEPlug error discovering characteristics: timed out".to_string()
        ))
    );
}
