//! The message data model shared by the client and the server: device
//! snapshots, device-addressed commands, device-manager commands, and the
//! messages the server emits outward.

use vstd::prelude::*;

verus! {

/// A logical role on a peripheral, resolved to a transport identifier
/// (for Bluetooth LE: a characteristic UUID) at specialization time.
#[derive(Clone, Copy, Debug, PartialEq, Eq, Structural)]
pub enum Endpoint {
    Command,
    Firmware,
    Rx,
    Tx,
    Whitelist,
    Generic0,
    Generic1,
    Generic2,
}

/// Which abstract commands a device supports, with the number of
/// addressable features for each.
#[derive(Clone, Copy, Debug, PartialEq, Eq, Hash)]
pub struct MessageAttributes {
    pub vibrate_count: Option<u32>,
    pub rotate_count: Option<u32>,
    pub linear_count: Option<u32>,
}

/// Immutable snapshot of one identified device, created when the device is
/// identified and copied into `DeviceAdded` and `DeviceList` messages.
#[derive(Clone, Debug, PartialEq, Eq, Hash)]
pub struct DeviceMessageInfo {
    pub device_index: u32,
    pub device_name: String,
    pub device_messages: MessageAttributes,
}

impl DeviceMessageInfo {
    /// An equal copy of the snapshot.
    pub fn duplicate(&self) -> (r: DeviceMessageInfo)
        ensures
            r == *self,
    {
        DeviceMessageInfo {
            device_index: self.device_index,
            device_name: self.device_name.clone(),
            device_messages: self.device_messages,
        }
    }
}

/// One speed assignment of a `VibrateCmd`. The speed is a fraction of full
/// scale in thousandths: `0` is stopped, `1000` is full speed.
#[derive(Clone, Copy, Debug, PartialEq, Eq, Structural)]
pub struct VibrateSubcommand {
    pub index: u32,
    pub speed: u32,
}

impl VibrateSubcommand {
    /// A subcommand is valid when its speed does not exceed full scale.
    pub open spec fn valid(self) -> bool {
        self.speed <= 1000
    }

    pub fn new(index: u32, speed: u32) -> (r: Self)
        requires
            speed <= 1000,
        ensures
            r == (VibrateSubcommand { index, speed }),
            r.valid(),
    {
        VibrateSubcommand { index, speed }
    }
}

/// Commands addressed to one device, routed through the registry to the
/// device's protocol handler.
#[derive(Clone, Debug, PartialEq, Eq)]
pub enum ButtplugDeviceCommandMessageUnion {
    VibrateCmd { id: u32, device_index: u32, speeds: Vec<VibrateSubcommand> },
    StopDeviceCmd { id: u32, device_index: u32 },
}

impl ButtplugDeviceCommandMessageUnion {
    /// The index of the device this command is addressed to.
    pub open spec fn spec_device_index(self) -> u32 {
        match self {
            ButtplugDeviceCommandMessageUnion::VibrateCmd { device_index, .. } => device_index,
            ButtplugDeviceCommandMessageUnion::StopDeviceCmd { device_index, .. } => device_index,
        }
    }

    /// The message id the reply must carry.
    pub open spec fn spec_id(self) -> u32 {
        match self {
            ButtplugDeviceCommandMessageUnion::VibrateCmd { id, .. } => id,
            ButtplugDeviceCommandMessageUnion::StopDeviceCmd { id, .. } => id,
        }
    }

    pub fn get_device_index(&self) -> (r: u32)
        ensures
            r == self.spec_device_index(),
    {
        match self {
            ButtplugDeviceCommandMessageUnion::VibrateCmd { device_index, .. } => *device_index,
            ButtplugDeviceCommandMessageUnion::StopDeviceCmd { device_index, .. } => *device_index,
        }
    }

    pub fn get_id(&self) -> (r: u32)
        ensures
            r == self.spec_id(),
    {
        match self {
            ButtplugDeviceCommandMessageUnion::VibrateCmd { id, .. } => *id,
            ButtplugDeviceCommandMessageUnion::StopDeviceCmd { id, .. } => *id,
        }
    }
}

/// Commands addressed to the device manager itself rather than to a device.
#[derive(Clone, Copy, Debug, PartialEq, Eq, Structural)]
pub enum ButtplugDeviceManagerMessageUnion {
    RequestDeviceList { id: u32 },
    StopAllDevices { id: u32 },
    StartScanning { id: u32 },
    StopScanning { id: u32 },
}

/// The client-to-server wire messages the device manager may be handed.
/// `Ping` stands for the messages that are routable neither as a device
/// command nor as a device-manager command.
#[derive(Clone, Debug, PartialEq, Eq)]
pub enum ButtplugClientRequest {
    DeviceCommand(ButtplugDeviceCommandMessageUnion),
    ManagerCommand(ButtplugDeviceManagerMessageUnion),
    Ping { id: u32 },
}

/// The body of a `DeviceList` reply: every identified device the server
/// currently holds, stamped with the id of the request it answers.
#[derive(Clone, Debug, PartialEq, Eq)]
pub struct DeviceList {
    pub id: u32,
    pub devices: Vec<DeviceMessageInfo>,
}

/// Messages the server emits outward to the client.
#[derive(Clone, Debug, PartialEq, Eq)]
pub enum ButtplugServerMessage {
    Okay { id: u32 },
    DeviceAdded { device_index: u32, device_name: String, device_messages: MessageAttributes },
    DeviceList(DeviceList),
    DeviceRemoved { device_index: u32 },
    ScanningFinished,
}

} // verus!
