use buttplug::client::{
    ButtplugClientDevice, ButtplugClientEvent, ButtplugClientEventLoop, ButtplugClientMessage,
    ClientLoopAction, StreamReturn,
};
use buttplug::messages::{
    ButtplugClientRequest, ButtplugServerMessage, DeviceList, DeviceMessageInfo,
    MessageAttributes,
};

fn attrs() -> MessageAttributes {
    MessageAttributes { vibrate_count: Some(1), rotate_count: None, linear_count: None }
}

fn info(index: u32, name: &str) -> DeviceMessageInfo {
    DeviceMessageInfo {
        device_index: index,
        device_name: name.to_string(),
        device_messages: attrs(),
    }
}

fn added(index: u32, name: &str) -> ButtplugServerMessage {
    ButtplugServerMessage::DeviceAdded {
        device_index: index,
        device_name: name.to_string(),
        device_messages: attrs(),
    }
}

#[test]
fn device_added_creates_handle_and_event() {
    let mut lp = ButtplugClientEventLoop::new();
    let events = lp.parse_connector_message(added(0, "Dev"));
    assert_eq!(
        events,
        vec![ButtplugClientEvent::DeviceAdded(ButtplugClientDevice {
            device_index: 0,
            name: "Dev".to_string(),
            allowed_messages: attrs(),
        })]
    );
    assert_eq!(lp.devices, vec![info(0, "Dev")]);
    assert_eq!(lp.device_event_senders, vec![0]);
}

#[test]
fn device_list_round_trip_emits_one_added_per_entry_in_order() {
    let mut lp = ButtplugClientEventLoop::new();
    let list = DeviceList { id: 1, devices: vec![info(0, "A"), info(1, "B"), info(2, "C")] };
    let events = lp.parse_connector_message(ButtplugServerMessage::DeviceList(list));
    assert_eq!(events.len(), 3);
    for (i, name) in ["A", "B", "C"].iter().enumerate() {
        assert_eq!(
            events[i],
            ButtplugClientEvent::DeviceAdded(ButtplugClientDevice {
                device_index: i as u32,
                name: name.to_string(),
                allowed_messages: attrs(),
            })
        );
    }
    assert_eq!(lp.devices.len(), 3);
}

#[test]
fn device_removed_clears_roster_and_sinks() {
    let mut lp = ButtplugClientEventLoop::new();
    lp.parse_connector_message(added(0, "Dev"));
    lp.parse_connector_message(added(1, "Other"));
    // a second handle for device 0
    let dev = lp.create_client_device(&info(0, "Dev"));
    assert_eq!(dev.device_index, 0);
    assert_eq!(lp.device_event_senders, vec![0, 1, 0]);
    let events =
        lp.parse_connector_message(ButtplugServerMessage::DeviceRemoved { device_index: 0 });
    assert_eq!(events, vec![ButtplugClientEvent::DeviceRemoved(info(0, "Dev"))]);
    // every sink for index 0 is gone, the one for index 1 stays
    assert_eq!(lp.device_event_senders, vec![1]);
    assert_eq!(lp.devices, vec![info(1, "Other")]);
}

#[test]
fn request_device_list_builds_one_handle_per_device() {
    let mut lp = ButtplugClientEventLoop::new();
    lp.parse_connector_message(added(0, "A"));
    lp.parse_connector_message(added(1, "B"));
    let (actions, keep_running) = lp.parse_client_message(ButtplugClientMessage::RequestDeviceList);
    assert!(keep_running);
    assert_eq!(actions.len(), 1);
    match &actions[0] {
        ClientLoopAction::ReplyDeviceList(handles) => {
            assert_eq!(handles.len(), 2);
            assert_eq!(handles[0].device_index, 0);
            assert_eq!(handles[0].name, "A");
            assert_eq!(handles[1].device_index, 1);
            assert_eq!(handles[1].name, "B");
        }
        other => panic!("expected a device list reply, got {:?}", other),
    }
    // each returned handle registered one more sink
    assert_eq!(lp.device_event_senders, vec![0, 1, 0, 1]);
}

#[test]
fn outbound_message_is_forwarded() {
    let mut lp = ButtplugClientEventLoop::new();
    let req = ButtplugClientRequest::Ping { id: 4 };
    let (actions, keep_running) =
        lp.parse_client_message(ButtplugClientMessage::Message(req.clone()));
    assert!(keep_running);
    assert_eq!(actions, vec![ClientLoopAction::ForwardToConnector(req)]);
}

#[test]
fn handle_device_list_message_updates_roster() {
    let mut lp = ButtplugClientEventLoop::new();
    let list = DeviceList { id: 2, devices: vec![info(5, "E")] };
    let (actions, keep_running) =
        lp.parse_client_message(ButtplugClientMessage::HandleDeviceList(list));
    assert!(keep_running);
    assert_eq!(
        actions,
        vec![ClientLoopAction::EmitClientEvent(ButtplugClientEvent::DeviceAdded(
            ButtplugClientDevice {
                device_index: 5,
                name: "E".to_string(),
                allowed_messages: attrs(),
            }
        ))]
    );
    assert_eq!(lp.devices, vec![info(5, "E")]);
}

#[test]
fn disconnect_request_stops_the_loop() {
    let mut lp = ButtplugClientEventLoop::new();
    let (actions, keep_running) = lp.parse_client_message(ButtplugClientMessage::Disconnect);
    assert!(!keep_running);
    assert_eq!(actions, vec![ClientLoopAction::DisconnectConnector]);
}

#[test]
fn stream_events_route_and_closure_stops_the_loop() {
    let mut lp = ButtplugClientEventLoop::new();
    let (actions, keep_running) = lp.handle_stream_event(StreamReturn::ConnectorMessage(added(
        0, "Dev",
    )));
    assert!(keep_running);
    assert_eq!(actions.len(), 1);
    let req = ButtplugClientRequest::Ping { id: 1 };
    let (actions, keep_running) =
        lp.handle_stream_event(StreamReturn::DeviceMessage(req.clone()));
    assert!(keep_running);
    assert_eq!(actions, vec![ClientLoopAction::ForwardToConnector(req)]);
    let (actions, keep_running) = lp.handle_stream_event(StreamReturn::Disconnect);
    assert!(!keep_running);
    assert!(actions.is_empty());
}

#[test]
fn duplicate_added_supersedes_earlier_snapshot() {
    let mut lp = ButtplugClientEventLoop::new();
    lp.parse_connector_message(added(0, "Old"));
    lp.parse_connector_message(added(0, "New"));
    assert_eq!(lp.devices, vec![info(0, "New")]);
    // two handles were created, one per added message
    assert_eq!(lp.device_event_senders, vec![0, 0]);
}
