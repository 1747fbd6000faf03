//! The server-side device manager: the event loop that owns device-index
//! allocation, the device registry and the ping-timeout watchdog, and the
//! dispatch logic that routes client messages to devices or to the manager.
//!
//! The loop itself suspends on channels; what is verified here is every
//! decision it takes. `DeviceManagerEventLoop::handle_event` maps one loop
//! input to the registry transition and the actions the loop performs;
//! `resolve_identification` maps the outcome of one identification task to
//! the messages it emits; `DeviceManager::parse_message` routes one client
//! message against a read of the registry.

use vstd::prelude::*;

use crate::errors::{no_device_message, device_not_found_error, ButtplugError};
use crate::messages::{
    ButtplugClientRequest, ButtplugDeviceCommandMessageUnion, ButtplugDeviceManagerMessageUnion,
    ButtplugServerMessage, DeviceList, DeviceMessageInfo, Endpoint, MessageAttributes,
};
use crate::registry::{published, staged, DeviceRecord, DeviceRegistry};

verus! {

/// Events a connected device reports back into the manager loop.
#[derive(Clone, Debug, PartialEq, Eq)]
pub enum ButtplugDeviceEvent {
    /// The device disconnected; it must leave the registry.
    Removed,
    /// A notification payload arrived from the device.
    Notification { endpoint: Endpoint, data: Vec<u8> },
}

/// Events a communication manager (or the manager loop itself, by
/// reinjection) feeds into the manager loop. A found device is carried as an
/// opaque creator token; the identification task the loop spawns resolves it.
#[derive(Clone, Debug, PartialEq, Eq)]
pub enum DeviceCommunicationEvent {
    DeviceFound { creator: u64 },
    DeviceConnected { device_index: u32, record: DeviceRecord },
    ScanningFinished,
}

/// One input to the manager loop: a communication event, a device event
/// tagged with its index, or the ping-timeout signal. `None` stands for
/// closure of the respective channel.
#[derive(Clone, Debug, PartialEq, Eq)]
pub enum DeviceEvent {
    DeviceCommunicationEvent(Option<DeviceCommunicationEvent>),
    DeviceEvent(Option<(u32, ButtplugDeviceEvent)>),
    PingTimeout,
}

/// What the manager loop does in reaction to one input, in order.
#[derive(Clone, Debug, PartialEq, Eq)]
pub enum DeviceManagerAction {
    /// Spawn an identification task for a found device under a freshly
    /// allocated index.
    SpawnIdentify { device_index: u32, creator: u64 },
    /// Emit a message outward to the server's event channel.
    EmitServerMessage(ButtplugServerMessage),
    /// Feed a communication event back into the loop's own inbox.
    Reinject(DeviceCommunicationEvent),
    /// Issue the given stop command to the device at the given index.
    StopDevice { device_index: u32, command: ButtplugDeviceCommandMessageUnion },
    /// Terminate the loop; no further events are processed.
    ExitLoop,
}

/// The mathematical state of the manager loop: the next index to allocate
/// and the two sides of the registry.
#[verifier::ext_equal]
pub ghost struct ManagerModel {
    pub next_index: u32,
    pub staged: Map<u32, DeviceRecord>,
    pub published: Map<u32, DeviceRecord>,
}

/// The index a stop action addresses (zero for any other action; used only
/// to state distinctness of stop actions).
pub open spec fn action_stop_index(a: DeviceManagerAction) -> u32 {
    match a {
        DeviceManagerAction::StopDevice { device_index, .. } => device_index,
        _ => 0,
    }
}

/// How one loop input moves the manager state.
pub open spec fn manager_step(m: ManagerModel, event: DeviceEvent) -> ManagerModel {
    match event {
        DeviceEvent::DeviceCommunicationEvent(Some(e)) => match e {
            DeviceCommunicationEvent::DeviceFound { .. } => ManagerModel {
                next_index: (m.next_index + 1) as u32,
                staged: m.staged,
                published: m.published,
            },
            DeviceCommunicationEvent::DeviceConnected { device_index, record } => ManagerModel {
                next_index: m.next_index,
                staged: m.staged.insert(device_index, record),
                published: m.staged.insert(device_index, record),
            },
            DeviceCommunicationEvent::ScanningFinished => m,
        },
        DeviceEvent::DeviceEvent(Some((device_index, ev))) => match ev {
            ButtplugDeviceEvent::Removed => ManagerModel {
                next_index: m.next_index,
                staged: m.staged.remove(device_index),
                published: m.staged.remove(device_index),
            },
            ButtplugDeviceEvent::Notification { .. } => m,
        },
        DeviceEvent::DeviceCommunicationEvent(None) => m,
        DeviceEvent::DeviceEvent(None) => m,
        DeviceEvent::PingTimeout => m,
    }
}

/// The inputs the loop can be handed. A found device needs a fresh index, so
/// the counter must not be exhausted; a `DeviceConnected` event exists only
/// as the loop's own reinjection for an index it allocated, identified once,
/// and never inserted before.
pub open spec fn manager_event_valid(m: ManagerModel, event: DeviceEvent) -> bool {
    match event {
        DeviceEvent::DeviceCommunicationEvent(Some(e)) => match e {
            DeviceCommunicationEvent::DeviceFound { .. } => m.next_index < u32::MAX,
            DeviceCommunicationEvent::DeviceConnected { device_index, .. } => {
                &&& device_index < m.next_index
                &&& !m.staged.contains_key(device_index)
            },
            DeviceCommunicationEvent::ScanningFinished => true,
        },
        _ => true,
    }
}

/// Exactly which actions one loop input produces. All cases but the ping
/// timeout are a fixed sequence; on ping timeout the registry is walked in
/// no promised order, so the stop actions are pinned as a set: one stop
/// command with id 1 per published device, each index once, then loop exit.
pub open spec fn manager_actions_ok(
    m: ManagerModel,
    event: DeviceEvent,
    actions: Seq<DeviceManagerAction>,
) -> bool {
    match event {
        DeviceEvent::DeviceCommunicationEvent(Some(e)) => match e {
            DeviceCommunicationEvent::DeviceFound { creator } => actions =~= seq![
                DeviceManagerAction::SpawnIdentify { device_index: m.next_index, creator },
            ],
            DeviceCommunicationEvent::DeviceConnected { .. } => actions =~= Seq::empty(),
            DeviceCommunicationEvent::ScanningFinished => actions =~= seq![
                DeviceManagerAction::EmitServerMessage(ButtplugServerMessage::ScanningFinished),
            ],
        },
        DeviceEvent::DeviceEvent(Some((device_index, ev))) => match ev {
            ButtplugDeviceEvent::Removed => actions =~= seq![
                DeviceManagerAction::EmitServerMessage(
                    ButtplugServerMessage::DeviceRemoved { device_index },
                ),
            ],
            ButtplugDeviceEvent::Notification { .. } => actions =~= Seq::empty(),
        },
        DeviceEvent::DeviceCommunicationEvent(None) => actions =~= seq![
            DeviceManagerAction::ExitLoop,
        ],
        DeviceEvent::DeviceEvent(None) => actions =~= seq![DeviceManagerAction::ExitLoop],
        DeviceEvent::PingTimeout => {
            &&& actions.len() >= 1
            &&& actions[actions.len() - 1] == DeviceManagerAction::ExitLoop
            &&& (forall|i: int|
                0 <= i < actions.len() - 1 ==> ((#[trigger] actions[i]) matches
                    DeviceManagerAction::StopDevice { device_index, command }
                    && m.published.contains_key(device_index) && command == (
                ButtplugDeviceCommandMessageUnion::StopDeviceCmd { id: 1, device_index })))
            &&& (forall|i: int, j: int|
                0 <= i < j < actions.len() - 1 ==> action_stop_index(#[trigger] actions[i])
                    != action_stop_index(#[trigger] actions[j]))
            &&& (forall|k: u32|
                #[trigger] m.published.contains_key(k) ==> exists|i: int|
                    0 <= i < actions.len() - 1 && action_stop_index(#[trigger] actions[i]) == k)
        },
    }
}

/// The state the manager event loop owns: the index counter and the
/// registry's write side (with its paired read side).
pub struct DeviceManagerEventLoop {
    pub main_device_index: u32,
    pub registry: DeviceRegistry,
}

impl DeviceManagerEventLoop {
    /// The loop's mathematical state.
    pub open spec fn model(self) -> ManagerModel {
        ManagerModel {
            next_index: self.main_device_index,
            staged: staged(self.registry),
            published: published(self.registry),
        }
    }

    /// Between events the loop keeps the registry published (every mutation
    /// is followed by a refresh) and holds only indices it has allocated.
    pub open spec fn wf(self) -> bool {
        &&& published(self.registry) == staged(self.registry)
        &&& (forall|k: u32|
            #[trigger] staged(self.registry).contains_key(k) ==> k < self.main_device_index)
    }

    /// A fresh loop: no device yet, the first device gets index 0, and the
    /// registry is published at once so that a ping timeout before any
    /// device stops nothing.
    pub fn new() -> (r: DeviceManagerEventLoop)
        ensures
            r.wf(),
            r.main_device_index == 0,
            staged(r.registry) =~= Map::empty(),
            published(r.registry) =~= Map::empty(),
    {
        let mut registry = DeviceRegistry::new();
        registry.refresh();
        DeviceManagerEventLoop { main_device_index: 0, registry }
    }

    /// Reacts to one loop input: moves the registry as `manager_step` says
    /// and returns the actions the loop must perform, in order.
    #[verifier::loop_isolation(false)]
    pub fn handle_event(&mut self, event: DeviceEvent) -> (actions: Vec<DeviceManagerAction>)
        requires
            old(self).wf(),
            manager_event_valid(old(self).model(), event),
        ensures
            final(self).wf(),
            final(self).model() =~= manager_step(old(self).model(), event),
            manager_actions_ok(old(self).model(), event, actions@),
    {
        let mut actions: Vec<DeviceManagerAction> = Vec::new();
        match event {
            DeviceEvent::DeviceCommunicationEvent(Some(e)) => match e {
                DeviceCommunicationEvent::DeviceFound { creator } => {
                    let device_index = self.main_device_index;
                    self.main_device_index = self.main_device_index + 1;
                    actions.push(DeviceManagerAction::SpawnIdentify { device_index, creator });
                },
                DeviceCommunicationEvent::DeviceConnected { device_index, record } => {
                    self.registry.insert(device_index, record);
                    self.registry.refresh();
                },
                DeviceCommunicationEvent::ScanningFinished => {
                    actions.push(
                        DeviceManagerAction::EmitServerMessage(
                            ButtplugServerMessage::ScanningFinished,
                        ),
                    );
                },
            },
            DeviceEvent::DeviceEvent(Some((device_index, ev))) => match ev {
                ButtplugDeviceEvent::Removed => {
                    self.registry.evict(device_index);
                    self.registry.refresh();
                    actions.push(
                        DeviceManagerAction::EmitServerMessage(
                            ButtplugServerMessage::DeviceRemoved { device_index },
                        ),
                    );
                },
                ButtplugDeviceEvent::Notification { .. } => {},
            },
            DeviceEvent::DeviceCommunicationEvent(None) => {
                actions.push(DeviceManagerAction::ExitLoop);
            },
            DeviceEvent::DeviceEvent(None) => {
                actions.push(DeviceManagerAction::ExitLoop);
            },
            DeviceEvent::PingTimeout => {
                let snap = self.registry.snapshot();
                let mut i: usize = 0;
                while i < snap.len()
                    invariant
                        i <= snap.len(),
                        actions@.len() == i as int,
                        forall|j: int|
                            0 <= j < i ==> #[trigger] actions@[j] == (
                            DeviceManagerAction::StopDevice {
                                device_index: snap@[j].0,
                                command: ButtplugDeviceCommandMessageUnion::StopDeviceCmd {
                                    id: 1,
                                    device_index: snap@[j].0,
                                },
                            }),
                    decreases snap.len() - i,
                {
                    let device_index = snap[i].0;
                    actions.push(
                        DeviceManagerAction::StopDevice {
                            device_index,
                            command: ButtplugDeviceCommandMessageUnion::StopDeviceCmd {
                                id: 1,
                                device_index,
                            },
                        },
                    );
                    i = i + 1;
                }
                actions.push(DeviceManagerAction::ExitLoop);
                proof {
                    assert forall|k: u32|
                        #[trigger] published(self.registry).contains_key(k) implies exists|n: int|
                        0 <= n < actions@.len() - 1 && action_stop_index(#[trigger] actions@[n])
                            == k by {
                        let n = choose|n: int|
                            0 <= n < snap@.len() && #[trigger] snap@[n].0 == k;
                        assert(action_stop_index(actions@[n]) == k);
                    }
                }
            },
        }
        actions
    }
}

/// The decisions of one identification task, given the outcome of the
/// protocol-identification attempt for the device found under
/// `device_index`. A matched protocol yields the `DeviceAdded` message
/// outward first, then the reinjection that puts the device into the
/// registry on the loop thread; so a device is in the registry only after
/// its `DeviceAdded` went out. No protocol matched, or a connection error,
/// yields nothing: the index stays consumed and is never reused.
pub fn resolve_identification(
    device_index: u32,
    outcome: Result<Option<DeviceRecord>, String>,
) -> (actions: Vec<DeviceManagerAction>)
    ensures
        outcome matches Ok(Some(record)) ==> actions@ =~= seq![
            DeviceManagerAction::EmitServerMessage(
                ButtplugServerMessage::DeviceAdded {
                    device_index,
                    device_name: record.device_name,
                    device_messages: record.device_messages,
                },
            ),
            DeviceManagerAction::Reinject(
                DeviceCommunicationEvent::DeviceConnected { device_index, record },
            ),
        ],
        outcome matches Ok(None) ==> actions@ =~= Seq::empty(),
        outcome matches Err(_) ==> actions@ =~= Seq::empty(),
{
    let mut actions: Vec<DeviceManagerAction> = Vec::new();
    match outcome {
        Ok(Some(record)) => {
            actions.push(
                DeviceManagerAction::EmitServerMessage(
                    ButtplugServerMessage::DeviceAdded {
                        device_index,
                        device_name: record.device_name.clone(),
                        device_messages: record.device_messages.clone(),
                    },
                ),
            );
            actions.push(
                DeviceManagerAction::Reinject(
                    DeviceCommunicationEvent::DeviceConnected { device_index, record },
                ),
            );
        },
        Ok(None) => {},
        Err(_) => {},
    }
    actions
}


/// What one routed client message asks the server to do next. The loop-free
/// dispatch path computes this; the surrounding runtime performs it and
/// builds the reply.
#[derive(Clone, Debug, PartialEq, Eq)]
pub enum ServerDispatch {
    /// The reply is already complete (a `DeviceList` snapshot).
    Reply(ButtplugServerMessage),
    /// Hand the command to the device found under its index for protocol
    /// translation; reply `Okay` with the command's id when it completes.
    ToDevice { device_index: u32, command: ButtplugDeviceCommandMessageUnion, record: DeviceRecord },
    /// Issue one stop command with id 1 to each listed device; per-device
    /// errors are logged, and the batch replies `Okay { id }`.
    StopAll { device_indices: Vec<u32>, id: u32 },
    /// Command every registered communication manager to start or stop
    /// scanning; reply `Okay { id }` after all return.
    Scan { start: bool, manager_count: u32, id: u32 },
}

/// The diagnostic string of the error returned when scanning is requested
/// with no communication manager registered.
pub open spec fn no_managers_message() -> Seq<char> {
    "Cannot start scanning. Server has no device communication managers to scan with."@
}

/// The diagnostic string of the error returned for a message that is
/// routable neither as a device command nor as a device-manager command.
pub open spec fn unhandled_message_text() -> Seq<char> {
    "Message type not handled by Device Manager"@
}

/// Every entry describes one device of `devices` (same name and attributes
/// under its index), no index twice, and every device appears.
pub open spec fn infos_match_registry(
    devices: Map<u32, DeviceRecord>,
    infos: Seq<DeviceMessageInfo>,
) -> bool {
    &&& (forall|i: int, j: int|
        0 <= i < j < infos.len() ==> (#[trigger] infos[i]).device_index != (
        #[trigger] infos[j]).device_index)
    &&& (forall|i: int|
        0 <= i < infos.len() ==> devices.get((#[trigger] infos[i]).device_index) == Some(
            DeviceRecord {
                device_name: infos[i].device_name,
                device_messages: infos[i].device_messages,
            },
        ))
    &&& (forall|k: u32|
        #[trigger] devices.contains_key(k) ==> exists|i: int|
            0 <= i < infos.len() && (#[trigger] infos[i]).device_index == k)
}

/// The listed indices are exactly the keys of `devices`, each once.
pub open spec fn indices_match_registry(
    devices: Map<u32, DeviceRecord>,
    indices: Seq<u32>,
) -> bool {
    &&& (forall|i: int, j: int| 0 <= i < j < indices.len() ==> indices[i] != indices[j])
    &&& (forall|i: int| 0 <= i < indices.len() ==> devices.contains_key(#[trigger] indices[i]))
    &&& (forall|k: u32|
        #[trigger] devices.contains_key(k) ==> exists|i: int|
            0 <= i < indices.len() && indices[i] == k)
}

/// Exactly how one client message is routed, given the number of registered
/// communication managers and the published registry:
///
/// - a device command goes to its device when the index is published, and
///   fails with the device error naming that index when it is not;
/// - `RequestDeviceList` replies at once with a snapshot of the registry;
/// - `StopAllDevices` stops every published device;
/// - `StartScanning` and `StopScanning` fan out to the managers, and fail
///   when none is registered;
/// - anything else fails as unroutable.
pub open spec fn parse_message_ok(
    manager_count: u32,
    devices: Map<u32, DeviceRecord>,
    msg: ButtplugClientRequest,
    r: Result<ServerDispatch, ButtplugError>,
) -> bool {
    match msg {
        ButtplugClientRequest::DeviceCommand(command) => {
            let idx = command.spec_device_index();
            if devices.contains_key(idx) {
                r == Ok::<ServerDispatch, ButtplugError>(
                    ServerDispatch::ToDevice { device_index: idx, command, record: devices[idx] },
                )
            } else {
                r matches Err(e) && e matches ButtplugError::DeviceError(m) && m@
                    == no_device_message(idx)
            }
        },
        ButtplugClientRequest::ManagerCommand(manager_msg) => match manager_msg {
            ButtplugDeviceManagerMessageUnion::RequestDeviceList { id } => {
                r matches Ok(d) && d matches ServerDispatch::Reply(reply) && reply matches
                    ButtplugServerMessage::DeviceList(list) && list.id == id
                    && infos_match_registry(devices, list.devices@)
            },
            ButtplugDeviceManagerMessageUnion::StopAllDevices { id } => {
                r matches Ok(d) && d matches ServerDispatch::StopAll {
                    device_indices,
                    id: rid,
                } && rid == id && indices_match_registry(devices, device_indices@)
            },
            ButtplugDeviceManagerMessageUnion::StartScanning { id } => if manager_count == 0 {
                r matches Err(e) && e matches ButtplugError::UnknownError(m) && m@
                    == no_managers_message()
            } else {
                r == Ok::<ServerDispatch, ButtplugError>(
                    ServerDispatch::Scan { start: true, manager_count, id },
                )
            },
            ButtplugDeviceManagerMessageUnion::StopScanning { id } => if manager_count == 0 {
                r matches Err(e) && e matches ButtplugError::UnknownError(m) && m@
                    == no_managers_message()
            } else {
                r == Ok::<ServerDispatch, ButtplugError>(
                    ServerDispatch::Scan { start: false, manager_count, id },
                )
            },
        },
        ButtplugClientRequest::Ping { .. } => {
            r matches Err(e) && e matches ButtplugError::MessageError(m) && m@
                == unhandled_message_text()
        },
    }
}

/// The server-side dispatch state: how many communication managers are
/// registered. The manager objects themselves, and the event loop that owns
/// the registry's write side, live with the runtime; dispatch reads the
/// registry through the read side it is handed.
pub struct DeviceManager {
    pub comm_manager_count: u32,
}

impl DeviceManager {
    /// A manager with no communication managers registered yet.
    pub fn new() -> (r: DeviceManager)
        ensures
            r.comm_manager_count == 0,
    {
        DeviceManager { comm_manager_count: 0 }
    }

    /// Registers one more communication manager.
    pub fn add_comm_manager(&mut self)
        requires
            old(self).comm_manager_count < u32::MAX,
        ensures
            final(self).comm_manager_count == old(self).comm_manager_count + 1,
    {
        self.comm_manager_count = self.comm_manager_count + 1;
    }

    /// Commands every registered manager to start scanning; with none
    /// registered there is nothing to scan with, and the request fails.
    pub fn start_scanning(&self, msg_id: u32) -> (r: Result<ServerDispatch, ButtplugError>)
        ensures
            self.comm_manager_count == 0 ==> (r matches Err(e) && e matches
                ButtplugError::UnknownError(m) && m@ == no_managers_message()),
            self.comm_manager_count != 0 ==> r == Ok::<ServerDispatch, ButtplugError>(
                ServerDispatch::Scan {
                    start: true,
                    manager_count: self.comm_manager_count,
                    id: msg_id,
                },
            ),
    {
        if self.comm_manager_count == 0 {
            Err(
                ButtplugError::UnknownError(
                    String::from_str(
                        "Cannot start scanning. Server has no device communication managers to scan with.",
                    ),
                ),
            )
        } else {
            Ok(
                ServerDispatch::Scan {
                    start: true,
                    manager_count: self.comm_manager_count,
                    id: msg_id,
                },
            )
        }
    }

    /// Commands every registered manager to stop scanning; with none
    /// registered the request fails, with the same diagnostic the start
    /// path uses.
    pub fn stop_scanning(&self, msg_id: u32) -> (r: Result<ServerDispatch, ButtplugError>)
        ensures
            self.comm_manager_count == 0 ==> (r matches Err(e) && e matches
                ButtplugError::UnknownError(m) && m@ == no_managers_message()),
            self.comm_manager_count != 0 ==> r == Ok::<ServerDispatch, ButtplugError>(
                ServerDispatch::Scan {
                    start: false,
                    manager_count: self.comm_manager_count,
                    id: msg_id,
                },
            ),
    {
        if self.comm_manager_count == 0 {
            Err(
                ButtplugError::UnknownError(
                    String::from_str(
                        "Cannot start scanning. Server has no device communication managers to scan with.",
                    ),
                ),
            )
        } else {
            Ok(
                ServerDispatch::Scan {
                    start: false,
                    manager_count: self.comm_manager_count,
                    id: msg_id,
                },
            )
        }
    }

    /// Stops every device the published registry holds: one stop command
    /// with id 1 per device, batched under the request's id.
    #[verifier::loop_isolation(false)]
    pub fn stop_all_devices(&self, devices: &DeviceRegistry, msg_id: u32) -> (r: ServerDispatch)
        ensures
            r matches ServerDispatch::StopAll { device_indices, id } && id == msg_id
                && indices_match_registry(published(*devices), device_indices@),
    {
        let snap = devices.snapshot();
        let mut device_indices: Vec<u32> = Vec::new();
        let mut i: usize = 0;
        while i < snap.len()
            invariant
                i <= snap.len(),
                device_indices@.len() == i as int,
                forall|j: int| 0 <= j < i ==> #[trigger] device_indices@[j] == snap@[j].0,
            decreases snap.len() - i,
        {
            device_indices.push(snap[i].0);
            i = i + 1;
        }
        proof {
            assert forall|k: u32| #[trigger]
                published(*devices).contains_key(k) implies exists|n: int|
                0 <= n < device_indices@.len() && device_indices@[n] == k by {
                let n = choose|n: int| 0 <= n < snap@.len() && #[trigger] snap@[n].0 == k;
                assert(device_indices@[n] == k);
            }
        }
        ServerDispatch::StopAll { device_indices, id: msg_id }
    }

    /// Routes a device-addressed command through the registry: to the device
    /// when its index is published, and to the device error naming the index
    /// when it is not.
    pub fn parse_device_message(
        &self,
        devices: &DeviceRegistry,
        device_msg: ButtplugDeviceCommandMessageUnion,
    ) -> (r: Result<ServerDispatch, ButtplugError>)
        ensures
            published(*devices).contains_key(device_msg.spec_device_index()) ==> r == Ok::<
                ServerDispatch,
                ButtplugError,
            >(
                ServerDispatch::ToDevice {
                    device_index: device_msg.spec_device_index(),
                    command: device_msg,
                    record: published(*devices)[device_msg.spec_device_index()],
                },
            ),
            !published(*devices).contains_key(device_msg.spec_device_index()) ==> (r matches Err(e)
                && e matches ButtplugError::DeviceError(m) && m@ == no_device_message(
                device_msg.spec_device_index(),
            )),
    {
        let device_index = device_msg.get_device_index();
        match devices.get_one(device_index) {
            Some(record) => Ok(
                ServerDispatch::ToDevice { device_index, command: device_msg, record },
            ),
            None => Err(device_not_found_error(device_index)),
        }
    }

    /// Answers `RequestDeviceList` with a snapshot of the published
    /// registry, stamped with the request's id.
    #[verifier::loop_isolation(false)]
    pub fn request_device_list(&self, devices: &DeviceRegistry, msg_id: u32) -> (list: DeviceList)
        ensures
            list.id == msg_id,
            infos_match_registry(published(*devices), list.devices@),
    {
        let snap = devices.snapshot();
        let mut infos: Vec<DeviceMessageInfo> = Vec::new();
        let mut i: usize = 0;
        while i < snap.len()
            invariant
                i <= snap.len(),
                infos@.len() == i as int,
                forall|j: int|
                    0 <= j < i ==> #[trigger] infos@[j] == (DeviceMessageInfo {
                        device_index: snap@[j].0,
                        device_name: snap@[j].1.device_name,
                        device_messages: snap@[j].1.device_messages,
                    }),
            decreases snap.len() - i,
        {
            let record = &snap[i].1;
            infos.push(
                DeviceMessageInfo {
                    device_index: snap[i].0,
                    device_name: record.device_name.clone(),
                    device_messages: record.device_messages,
                },
            );
            i = i + 1;
        }
        proof {
            assert forall|k: u32| #[trigger]
                published(*devices).contains_key(k) implies exists|n: int|
                0 <= n < infos@.len() && infos@[n].device_index == k by {
                let n = choose|n: int| 0 <= n < snap@.len() && #[trigger] snap@[n].0 == k;
                assert(infos@[n].device_index == k);
            }
        }
        DeviceList { id: msg_id, devices: infos }
    }

    /// Routes a command addressed to the device manager itself.
    pub fn parse_device_manager_message(
        &self,
        devices: &DeviceRegistry,
        manager_msg: ButtplugDeviceManagerMessageUnion,
    ) -> (r: Result<ServerDispatch, ButtplugError>)
        ensures
            parse_message_ok(
                self.comm_manager_count,
                published(*devices),
                ButtplugClientRequest::ManagerCommand(manager_msg),
                r,
            ),
    {
        match manager_msg {
            ButtplugDeviceManagerMessageUnion::RequestDeviceList { id } => {
                let list = self.request_device_list(devices, id);
                Ok(ServerDispatch::Reply(ButtplugServerMessage::DeviceList(list)))
            },
            ButtplugDeviceManagerMessageUnion::StopAllDevices { id } => {
                Ok(self.stop_all_devices(devices, id))
            },
            ButtplugDeviceManagerMessageUnion::StartScanning { id } => self.start_scanning(id),
            ButtplugDeviceManagerMessageUnion::StopScanning { id } => self.stop_scanning(id),
        }
    }

    /// Routes one client message: a device command straight to its device,
    /// a manager command to the manager, anything else to the routing error.
    pub fn parse_message(&self, devices: &DeviceRegistry, msg: ButtplugClientRequest) -> (r:
        Result<ServerDispatch, ButtplugError>)
        ensures
            parse_message_ok(self.comm_manager_count, published(*devices), msg, r),
    {
        match msg {
            ButtplugClientRequest::DeviceCommand(device_msg) => {
                self.parse_device_message(devices, device_msg)
            },
            ButtplugClientRequest::ManagerCommand(manager_msg) => {
                self.parse_device_manager_message(devices, manager_msg)
            },
            ButtplugClientRequest::Ping { .. } => {
                Err(
                    ButtplugError::MessageError(
                        String::from_str("Message type not handled by Device Manager"),
                    ),
                )
            },
        }
    }
}

} // verus!
