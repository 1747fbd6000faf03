use buttplug::device_manager::{
    ButtplugDeviceEvent, DeviceCommunicationEvent, DeviceEvent, DeviceManager,
    DeviceManagerAction, DeviceManagerEventLoop, ServerDispatch, resolve_identification,
};
use buttplug::errors::ButtplugError;
use buttplug::messages::{
    ButtplugClientRequest, ButtplugDeviceCommandMessageUnion, ButtplugDeviceManagerMessageUnion,
    ButtplugServerMessage, MessageAttributes, VibrateSubcommand,
};
use buttplug::registry::DeviceRecord;

fn vibrate_only(count: u32) -> MessageAttributes {
    MessageAttributes { vibrate_count: Some(count), rotate_count: None, linear_count: None }
}

fn dev_record() -> DeviceRecord {
    DeviceRecord { device_name: "Dev".to_string(), device_messages: vibrate_only(1) }
}

/// Drives one found device through identification into the registry and
/// returns the loop with the device under index 0.
fn loop_with_one_device() -> DeviceManagerEventLoop {
    let mut lp = DeviceManagerEventLoop::new();
    let actions = lp.handle_event(DeviceEvent::DeviceCommunicationEvent(Some(
        DeviceCommunicationEvent::DeviceFound { creator: 1 },
    )));
    assert_eq!(
        actions,
        vec![DeviceManagerAction::SpawnIdentify { device_index: 0, creator: 1 }]
    );
    let id_actions = resolve_identification(0, Ok(Some(dev_record())));
    assert_eq!(id_actions.len(), 2);
    assert_eq!(
        id_actions[0],
        DeviceManagerAction::EmitServerMessage(ButtplugServerMessage::DeviceAdded {
            device_index: 0,
            device_name: "Dev".to_string(),
            device_messages: vibrate_only(1),
        })
    );
    match &id_actions[1] {
        DeviceManagerAction::Reinject(ev) => {
            let actions = lp.handle_event(DeviceEvent::DeviceCommunicationEvent(Some(ev.clone())));
            assert!(actions.is_empty());
        }
        other => panic!("expected a reinjection, got {:?}", other),
    }
    lp
}

#[test]
fn happy_path_adds_device_then_scanning_finished() {
    let mut lp = loop_with_one_device();
    let actions = lp.handle_event(DeviceEvent::DeviceCommunicationEvent(Some(
        DeviceCommunicationEvent::ScanningFinished,
    )));
    assert_eq!(
        actions,
        vec![DeviceManagerAction::EmitServerMessage(ButtplugServerMessage::ScanningFinished)]
    );
    // the registry now holds index 0
    let dm = DeviceManager::new();
    match dm
        .parse_message(
            &lp.registry,
            ButtplugClientRequest::ManagerCommand(
                ButtplugDeviceManagerMessageUnion::RequestDeviceList { id: 2 },
            ),
        )
        .unwrap()
    {
        ServerDispatch::Reply(ButtplugServerMessage::DeviceList(list)) => {
            assert_eq!(list.id, 2);
            assert_eq!(list.devices.len(), 1);
            assert_eq!(list.devices[0].device_index, 0);
            assert_eq!(list.devices[0].device_name, "Dev");
            assert_eq!(list.devices[0].device_messages, vibrate_only(1));
        }
        other => panic!("expected a device list, got {:?}", other),
    }
}

#[test]
fn unidentified_device_consumes_index_without_adding() {
    let mut lp = DeviceManagerEventLoop::new();
    let actions = lp.handle_event(DeviceEvent::DeviceCommunicationEvent(Some(
        DeviceCommunicationEvent::DeviceFound { creator: 7 },
    )));
    assert_eq!(
        actions,
        vec![DeviceManagerAction::SpawnIdentify { device_index: 0, creator: 7 }]
    );
    // no protocol matched: nothing is emitted, nothing is reinjected
    let id_actions = resolve_identification(0, Ok(None));
    assert!(id_actions.is_empty());
    // an identification error also yields nothing
    let err_actions = resolve_identification(0, Err("connect failed".to_string()));
    assert!(err_actions.is_empty());
    // index 0 stays consumed; the next device gets index 1
    let actions = lp.handle_event(DeviceEvent::DeviceCommunicationEvent(Some(
        DeviceCommunicationEvent::DeviceFound { creator: 8 },
    )));
    assert_eq!(
        actions,
        vec![DeviceManagerAction::SpawnIdentify { device_index: 1, creator: 8 }]
    );
}

#[test]
fn command_dispatch_routes_to_device() {
    let lp = loop_with_one_device();
    let dm = DeviceManager::new();
    let cmd = ButtplugDeviceCommandMessageUnion::VibrateCmd {
        id: 3,
        device_index: 0,
        speeds: vec![VibrateSubcommand::new(0, 500)],
    };
    match dm
        .parse_message(&lp.registry, ButtplugClientRequest::DeviceCommand(cmd.clone()))
        .unwrap()
    {
        ServerDispatch::ToDevice { device_index, command, record } => {
            assert_eq!(device_index, 0);
            assert_eq!(command, cmd);
            assert_eq!(record, dev_record());
        }
        other => panic!("expected a device hand-off, got {:?}", other),
    }
}

#[test]
fn unknown_index_fails_with_device_error() {
    let lp = loop_with_one_device();
    let dm = DeviceManager::new();
    let cmd = ButtplugDeviceCommandMessageUnion::VibrateCmd {
        id: 4,
        device_index: 99,
        speeds: vec![VibrateSubcommand::new(0, 500)],
    };
    let err = dm
        .parse_message(&lp.registry, ButtplugClientRequest::DeviceCommand(cmd))
        .unwrap_err();
    assert_eq!(
        err,
        ButtplugError::DeviceError("No device with index 99 available".to_string())
    );
}

#[test]
fn disconnect_removes_device_and_later_commands_fail() {
    let mut lp = loop_with_one_device();
    let actions = lp.handle_event(DeviceEvent::DeviceEvent(Some((0, ButtplugDeviceEvent::Removed))));
    assert_eq!(
        actions,
        vec![DeviceManagerAction::EmitServerMessage(ButtplugServerMessage::DeviceRemoved {
            device_index: 0,
        })]
    );
    let dm = DeviceManager::new();
    let cmd = ButtplugDeviceCommandMessageUnion::StopDeviceCmd { id: 5, device_index: 0 };
    let err = dm
        .parse_message(&lp.registry, ButtplugClientRequest::DeviceCommand(cmd))
        .unwrap_err();
    assert_eq!(
        err,
        ButtplugError::DeviceError("No device with index 0 available".to_string())
    );
}

#[test]
fn ping_timeout_stops_every_device_once_and_exits() {
    let mut lp = loop_with_one_device();
    let actions = lp.handle_event(DeviceEvent::PingTimeout);
    assert_eq!(
        actions,
        vec![
            DeviceManagerAction::StopDevice {
                device_index: 0,
                command: ButtplugDeviceCommandMessageUnion::StopDeviceCmd {
                    id: 1,
                    device_index: 0,
                },
            },
            DeviceManagerAction::ExitLoop,
        ]
    );
}

#[test]
fn ping_timeout_on_empty_registry_only_exits() {
    let mut lp = DeviceManagerEventLoop::new();
    let actions = lp.handle_event(DeviceEvent::PingTimeout);
    assert_eq!(actions, vec![DeviceManagerAction::ExitLoop]);
}

#[test]
fn channel_closure_exits_loop() {
    let mut lp = DeviceManagerEventLoop::new();
    let actions = lp.handle_event(DeviceEvent::DeviceCommunicationEvent(None));
    assert_eq!(actions, vec![DeviceManagerAction::ExitLoop]);
    let actions = lp.handle_event(DeviceEvent::DeviceEvent(None));
    assert_eq!(actions, vec![DeviceManagerAction::ExitLoop]);
}

#[test]
fn scanning_without_managers_fails_with_unknown_error() {
    let lp = DeviceManagerEventLoop::new();
    let dm = DeviceManager::new();
    let err = dm
        .parse_message(
            &lp.registry,
            ButtplugClientRequest::ManagerCommand(
                ButtplugDeviceManagerMessageUnion::StartScanning { id: 6 },
            ),
        )
        .unwrap_err();
    assert_eq!(
        err,
        ButtplugError::UnknownError(
            "Cannot start scanning. Server has no device communication managers to scan with."
                .to_string()
        )
    );
}

#[test]
fn scanning_with_managers_fans_out() {
    let lp = DeviceManagerEventLoop::new();
    let mut dm = DeviceManager::new();
    dm.add_comm_manager();
    dm.add_comm_manager();
    match dm
        .parse_message(
            &lp.registry,
            ButtplugClientRequest::ManagerCommand(
                ButtplugDeviceManagerMessageUnion::StartScanning { id: 7 },
            ),
        )
        .unwrap()
    {
        ServerDispatch::Scan { start, manager_count, id } => {
            assert!(start);
            assert_eq!(manager_count, 2);
            assert_eq!(id, 7);
        }
        other => panic!("expected a scan fan-out, got {:?}", other),
    }
    match dm
        .parse_message(
            &lp.registry,
            ButtplugClientRequest::ManagerCommand(
                ButtplugDeviceManagerMessageUnion::StopScanning { id: 8 },
            ),
        )
        .unwrap()
    {
        ServerDispatch::Scan { start, manager_count, id } => {
            assert!(!start);
            assert_eq!(manager_count, 2);
            assert_eq!(id, 8);
        }
        other => panic!("expected a scan fan-out, got {:?}", other),
    }
}

#[test]
fn stop_all_devices_names_every_index() {
    let mut lp = loop_with_one_device();
    // add a second device under index 1
    let actions = lp.handle_event(DeviceEvent::DeviceCommunicationEvent(Some(
        DeviceCommunicationEvent::DeviceFound { creator: 2 },
    )));
    assert_eq!(
        actions,
        vec![DeviceManagerAction::SpawnIdentify { device_index: 1, creator: 2 }]
    );
    let record = DeviceRecord {
        device_name: "Other".to_string(),
        device_messages: vibrate_only(2),
    };
    let id_actions = resolve_identification(1, Ok(Some(record)));
    match &id_actions[1] {
        DeviceManagerAction::Reinject(ev) => {
            lp.handle_event(DeviceEvent::DeviceCommunicationEvent(Some(ev.clone())));
        }
        other => panic!("expected a reinjection, got {:?}", other),
    }
    let dm = DeviceManager::new();
    match dm
        .parse_message(
            &lp.registry,
            ButtplugClientRequest::ManagerCommand(
                ButtplugDeviceManagerMessageUnion::StopAllDevices { id: 9 },
            ),
        )
        .unwrap()
    {
        ServerDispatch::StopAll { mut device_indices, id } => {
            assert_eq!(id, 9);
            device_indices.sort();
            assert_eq!(device_indices, vec![0, 1]);
        }
        other => panic!("expected a stop batch, got {:?}", other),
    }
}

#[test]
fn unroutable_message_fails_with_message_error() {
    let lp = DeviceManagerEventLoop::new();
    let dm = DeviceManager::new();
    let err = dm
        .parse_message(&lp.registry, ButtplugClientRequest::Ping { id: 10 })
        .unwrap_err();
    assert_eq!(
        err,
        ButtplugError::MessageError("Message type not handled by Device Manager".to_string())
    );
}

#[test]
fn test_device_manager_creation() {
    // a fresh manager with one communication manager: scanning starts, a
    // found device is identified and answered for
    let mut lp = DeviceManagerEventLoop::new();
    let mut dm = DeviceManager::new();
    dm.add_comm_manager();
    match dm
        .parse_message(
            &lp.registry,
            ButtplugClientRequest::ManagerCommand(
                ButtplugDeviceManagerMessageUnion::StartScanning { id: 1 },
            ),
        )
        .unwrap()
    {
        ServerDispatch::Scan { start, manager_count, id } => {
            assert!(start && manager_count == 1 && id == 1);
        }
        other => panic!("expected a scan fan-out, got {:?}", other),
    }
    lp.handle_event(DeviceEvent::DeviceCommunicationEvent(Some(
        DeviceCommunicationEvent::DeviceFound { creator: 1 },
    )));
    let id_actions = resolve_identification(0, Ok(Some(dev_record())));
    match &id_actions[0] {
        DeviceManagerAction::EmitServerMessage(ButtplugServerMessage::DeviceAdded {
            device_index,
            ..
        }) => assert_eq!(*device_index, 0),
        other => panic!("Did not get device added message! {:?}", other),
    }
    match &id_actions[1] {
        DeviceManagerAction::Reinject(ev) => {
            lp.handle_event(DeviceEvent::DeviceCommunicationEvent(Some(ev.clone())));
        }
        other => panic!("expected a reinjection, got {:?}", other),
    }
    let list = dm
        .parse_message(
            &lp.registry,
            ButtplugClientRequest::ManagerCommand(
                ButtplugDeviceManagerMessageUnion::RequestDeviceList { id: 2 },
            ),
        )
        .unwrap();
    match list {
        ServerDispatch::Reply(ButtplugServerMessage::DeviceList(list)) => {
            assert_eq!(list.devices.len(), 1);
        }
        other => panic!("expected a device list, got {:?}", other),
    }
    let sent = dm.parse_message(
        &lp.registry,
        ButtplugClientRequest::DeviceCommand(ButtplugDeviceCommandMessageUnion::VibrateCmd {
            id: 3,
            device_index: 0,
            speeds: vec![VibrateSubcommand::new(0, 500)],
        }),
    );
    assert!(sent.is_ok(), "Message sent ok!");
}
