//! The hardware driver for one Bluetooth LE peripheral: resolving logical
//! endpoints to characteristic UUIDs at specialization time, planning
//! endpoint-addressed writes, reads and subscriptions, and bridging raw
//! notifications into typed hardware events.
//!
//! The transport itself (connecting, writing, the notification streams) is
//! driven by the runtime; what is verified here is every decision: which
//! characteristic a command goes to, which endpoint a notification belongs
//! to, when the bridge emits, logs or exits, and how connection-phase
//! outcomes map to errors. A characteristic or service UUID is carried as
//! its 128-bit value.

use vstd::prelude::*;

use crate::errors::ButtplugError;
use crate::messages::Endpoint;

verus! {

/// One service a protocol requires: the service UUID and the
/// characteristics the protocol binds, each under its logical endpoint.
#[derive(Clone, Debug, PartialEq, Eq)]
pub struct ProtocolBleService {
    pub service_uuid: u128,
    pub characteristics: Vec<(Endpoint, u128)>,
}

/// What identifies a Bluetooth LE device to a protocol: an advertised name
/// and the services it must offer.
#[derive(Clone, Debug, PartialEq, Eq)]
pub struct BluetoothLESpecifier {
    pub name: String,
    pub services: Vec<ProtocolBleService>,
}

impl BluetoothLESpecifier {
    /// The specifier a freshly discovered device advertises: its name and
    /// its service UUIDs, with no characteristic requirements yet.
    #[verifier::loop_isolation(false)]
    pub fn new_from_device(name: &str, services: &Vec<u128>) -> (r: BluetoothLESpecifier)
        ensures
            r.name@ == name@,
            r.services@.len() == services@.len(),
            forall|i: int|
                0 <= i < services@.len() ==> (#[trigger] r.services@[i]).service_uuid
                    == services@[i] && r.services@[i].characteristics@ =~= Seq::empty(),
    {
        let mut out: Vec<ProtocolBleService> = Vec::new();
        let mut i: usize = 0;
        while i < services.len()
            invariant
                i <= services@.len(),
                out@.len() == i as int,
                forall|j: int|
                    0 <= j < i ==> (#[trigger] out@[j]).service_uuid == services@[j]
                        && out@[j].characteristics@ =~= Seq::empty(),
            decreases services@.len() - i,
        {
            out.push(ProtocolBleService { service_uuid: services[i], characteristics: Vec::new() });
            i = i + 1;
        }
        BluetoothLESpecifier { name: String::from_str(name), services: out }
    }
}

/// How a protocol identifies a device, by transport.
#[derive(Clone, Debug, PartialEq, Eq)]
pub enum ProtocolCommunicationSpecifier {
    BluetoothLE(BluetoothLESpecifier),
    Serial { port: String },
}

/// One service a connected peripheral reports: its UUID and the UUIDs of
/// the characteristics it offers.
#[derive(Clone, Debug, PartialEq, Eq)]
pub struct DeviceService {
    pub uuid: u128,
    pub characteristics: Vec<u128>,
}

/// The map a sequence of key-value pairs denotes: later pairs for the same
/// key supersede earlier ones.
pub open spec fn pair_map_of<K, V>(s: Seq<(K, V)>) -> Map<K, V>
    decreases s.len(),
{
    if s.len() == 0 {
        Map::empty()
    } else {
        pair_map_of(s.drop_last()).insert(s.last().0, s.last().1)
    }
}

/// Pairs after position `t` that do not carry the key leave the key's value
/// unchanged.
proof fn lemma_pair_map_skip_tail<K, V>(s: Seq<(K, V)>, t: int, k: K)
    requires
        0 <= t <= s.len(),
        forall|j: int| t <= j < s.len() ==> (#[trigger] s[j]).0 != k,
    ensures
        pair_map_of(s).get(k) == pair_map_of(s.take(t)).get(k),
    decreases s.len() - t,
{
    if t < s.len() {
        let s0 = s.drop_last();
        assert(forall|j: int| 0 <= j < s0.len() ==> s0[j] == s[j]);
        assert(s.take(t) =~= s0.take(t));
        lemma_pair_map_skip_tail(s0, t, k);
    } else {
        assert(s.take(t) =~= s);
    }
}

/// The two directions of an endpoint binding, as maps.
#[verifier::ext_equal]
pub ghost struct EndpointBindings {
    pub endpoints: Map<Endpoint, u128>,
    pub uuids: Map<u128, Endpoint>,
}

/// Binding one characteristic records it in both directions.
pub open spec fn bind_step(m: EndpointBindings, endpoint: Endpoint, uuid: u128) -> EndpointBindings {
    EndpointBindings {
        endpoints: m.endpoints.insert(endpoint, uuid),
        uuids: m.uuids.insert(uuid, endpoint),
    }
}

/// Folds the characteristics a protocol service asks for over the
/// characteristics one device service offers: each requested
/// characteristic the device has is bound, in order.
pub open spec fn bind_chars(
    m: EndpointBindings,
    chars: Seq<(Endpoint, u128)>,
    offered: Seq<u128>,
) -> EndpointBindings
    decreases chars.len(),
{
    if chars.len() == 0 {
        m
    } else {
        let prev = bind_chars(m, chars.drop_last(), offered);
        if offered.contains(chars.last().1) {
            bind_step(prev, chars.last().0, chars.last().1)
        } else {
            prev
        }
    }
}

/// Folds one protocol service over every device service, in order; only
/// device services with the matching UUID contribute.
pub open spec fn bind_devices(
    m: EndpointBindings,
    proto: ProtocolBleService,
    devices: Seq<DeviceService>,
) -> EndpointBindings
    decreases devices.len(),
{
    if devices.len() == 0 {
        m
    } else {
        let prev = bind_devices(m, proto, devices.drop_last());
        if devices.last().uuid == proto.service_uuid {
            bind_chars(prev, proto.characteristics@, devices.last().characteristics@)
        } else {
            prev
        }
    }
}

/// Folds every protocol service over the device services, in order.
pub open spec fn bind_all(
    m: EndpointBindings,
    protos: Seq<ProtocolBleService>,
    devices: Seq<DeviceService>,
) -> EndpointBindings
    decreases protos.len(),
{
    if protos.len() == 0 {
        m
    } else {
        bind_devices(bind_all(m, protos.drop_last(), devices), protos.last(), devices)
    }
}

/// No binding at all.
pub open spec fn empty_bindings() -> EndpointBindings {
    EndpointBindings { endpoints: Map::empty(), uuids: Map::empty() }
}

/// The endpoint map bound at specialization time: logical endpoint to
/// characteristic UUID, and the reverse direction for notifications.
#[derive(Clone, Debug, PartialEq, Eq)]
pub struct EndpointMap {
    pub endpoints: Vec<(Endpoint, u128)>,
    pub uuid_map: Vec<(u128, Endpoint)>,
}

impl EndpointMap {
    /// Both directions, as maps.
    pub open spec fn model(self) -> EndpointBindings {
        EndpointBindings {
            endpoints: pair_map_of(self.endpoints@),
            uuids: pair_map_of(self.uuid_map@),
        }
    }

    /// An endpoint map with nothing bound.
    pub fn new() -> (r: EndpointMap)
        ensures
            r.model() =~= empty_bindings(),
    {
        EndpointMap { endpoints: Vec::new(), uuid_map: Vec::new() }
    }

    /// Binds one characteristic under its logical endpoint, in both
    /// directions.
    pub fn bind(&mut self, endpoint: Endpoint, uuid: u128)
        ensures
            final(self).model() =~= bind_step(old(self).model(), endpoint, uuid),
    {
        proof {
            assert(old(self).endpoints@.push((endpoint, uuid)).drop_last() =~= old(
                self,
            ).endpoints@);
            assert(old(self).uuid_map@.push((uuid, endpoint)).drop_last() =~= old(self).uuid_map@);
        }
        self.endpoints.push((endpoint, uuid));
        self.uuid_map.push((uuid, endpoint));
    }

    /// The characteristic bound under an endpoint, if any.
    #[verifier::loop_isolation(false)]
    pub fn characteristic_for(&self, endpoint: Endpoint) -> (r: Option<u128>)
        ensures
            r == self.model().endpoints.get(endpoint),
    {
        let s = &self.endpoints;
        let mut i: usize = s.len();
        while i > 0
            invariant
                i <= s@.len(),
                forall|j: int| i <= j < s@.len() ==> (#[trigger] s@[j]).0 != endpoint,
            decreases i,
        {
            i = i - 1;
            if s[i].0 == endpoint {
                proof {
                    lemma_pair_map_skip_tail(s@, i + 1, endpoint);
                    assert(s@.take(i + 1).drop_last() =~= s@.take(i as int));
                    assert(s@.take(i + 1).last() == s@[i as int]);
                }
                return Some(s[i].1);
            }
        }
        proof {
            lemma_pair_map_skip_tail(s@, 0, endpoint);
            assert(s@.take(0) =~= Seq::empty());
        }
        None
    }

    /// The endpoint a characteristic UUID is bound under, if any.
    #[verifier::loop_isolation(false)]
    pub fn endpoint_for_uuid(&self, uuid: u128) -> (r: Option<Endpoint>)
        ensures
            r == self.model().uuids.get(uuid),
    {
        let s = &self.uuid_map;
        let mut i: usize = s.len();
        while i > 0
            invariant
                i <= s@.len(),
                forall|j: int| i <= j < s@.len() ==> (#[trigger] s@[j]).0 != uuid,
            decreases i,
        {
            i = i - 1;
            if s[i].0 == uuid {
                proof {
                    lemma_pair_map_skip_tail(s@, i + 1, uuid);
                    assert(s@.take(i + 1).drop_last() =~= s@.take(i as int));
                    assert(s@.take(i + 1).last() == s@[i as int]);
                }
                return Some(s[i].1);
            }
        }
        proof {
            lemma_pair_map_skip_tail(s@, 0, uuid);
            assert(s@.take(0) =~= Seq::empty());
        }
        None
    }
}

/// Whether a device service offers a characteristic.
#[verifier::loop_isolation(false)]
fn offers_characteristic(offered: &Vec<u128>, uuid: u128) -> (r: bool)
    ensures
        r == offered@.contains(uuid),
{
    let mut i: usize = 0;
    while i < offered.len()
        invariant
            i <= offered@.len(),
            forall|j: int| 0 <= j < i ==> offered@[j] != uuid,
        decreases offered@.len() - i,
    {
        if offered[i] == uuid {
            return true;
        }
        i = i + 1;
    }
    proof {
        assert(!offered@.contains(uuid));
    }
    false
}

/// The first Bluetooth LE specifier of a list, if any.
pub open spec fn first_ble(s: Seq<ProtocolCommunicationSpecifier>) -> Option<BluetoothLESpecifier>
    decreases s.len(),
{
    if s.len() == 0 {
        None
    } else {
        match s[0] {
            ProtocolCommunicationSpecifier::BluetoothLE(b) => Some(b),
            _ => first_ble(s.skip(1)),
        }
    }
}

proof fn lemma_first_ble_skip(s: Seq<ProtocolCommunicationSpecifier>, i: int)
    requires
        0 <= i <= s.len(),
        forall|j: int| 0 <= j < i ==> !((#[trigger] s[j]) is BluetoothLE),
    ensures
        first_ble(s) == first_ble(s.skip(i)),
    decreases i,
{
    if i > 0 {
        assert(s.skip(1).skip(i - 1) =~= s.skip(i));
        assert(forall|j: int| 0 <= j < i - 1 ==> !((#[trigger] s.skip(1)[j]) is BluetoothLE));
        lemma_first_ble_skip(s.skip(1), i - 1);
    } else {
        assert(s.skip(0) =~= s);
    }
}


/// An equal copy of a list of UUIDs.
#[verifier::loop_isolation(false)]
fn copy_uuids(v: &Vec<u128>) -> (r: Vec<u128>)
    ensures
        r@ =~= v@,
{
    let mut out: Vec<u128> = Vec::new();
    let mut i: usize = 0;
    while i < v.len()
        invariant
            i <= v@.len(),
            out@ =~= v@.take(i as int),
        decreases v@.len() - i,
    {
        out.push(v[i]);
        i = i + 1;
        proof {
            assert(v@.take(i as int).drop_last() =~= v@.take(i - 1));
        }
    }
    proof {
        assert(v@.take(v@.len() as int) =~= v@);
    }
    out
}

/// The diagnostic string of the error raised when no Bluetooth LE
/// specifier is among a protocol's communication specifiers.
pub open spec fn no_ble_specifier_message(name: Seq<char>, address: Seq<char>) -> Seq<char> {
    "Can't find btle protocol specifier mapping for device "@ + name + " "@ + address
}

/// The connector for one discovered Bluetooth LE peripheral: what was
/// advertised (name, service UUIDs) and the peripheral's address. The
/// peripheral handle itself stays with the runtime.
#[derive(Clone, Debug, PartialEq, Eq)]
pub struct BtleplugHardwareConnector {
    pub name: String,
    pub services: Vec<u128>,
    pub address: String,
}

impl BtleplugHardwareConnector {
    pub fn new(name: &str, services: &Vec<u128>, address: String) -> (r: BtleplugHardwareConnector)
        ensures
            r.name@ == name@,
            r.services@ =~= services@,
            r.address == address,
    {
        BtleplugHardwareConnector {
            name: String::from_str(name),
            services: copy_uuids(services),
            address,
        }
    }

    /// The specifier this peripheral advertises, used to match it against
    /// protocol configurations.
    pub fn specifier(&self) -> (r: ProtocolCommunicationSpecifier)
        ensures
            r matches ProtocolCommunicationSpecifier::BluetoothLE(b) && b.name@ == self.name@
                && b.services@.len() == self.services@.len() && (forall|i: int|
                0 <= i < self.services@.len() ==> (#[trigger] b.services@[i]).service_uuid
                    == self.services@[i] && b.services@[i].characteristics@ =~= Seq::empty()),
    {
        ProtocolCommunicationSpecifier::BluetoothLE(
            BluetoothLESpecifier::new_from_device(self.name.as_str(), &self.services),
        )
    }
}

/// The phases of bringing a peripheral up: check whether it is already
/// connected, connect, discover its services, then specialize endpoints.
#[derive(Clone, Copy, Debug, PartialEq, Eq, Structural)]
pub enum ConnectStep {
    Connect,
    DiscoverServices,
    Specialize,
}

/// An already connected peripheral skips straight to specialization;
/// otherwise it must be connected first.
pub fn connect_phase_after_check(connected: bool) -> (r: ConnectStep)
    ensures
        connected ==> r == ConnectStep::Specialize,
        !connected ==> r == ConnectStep::Connect,
{
    if connected {
        ConnectStep::Specialize
    } else {
        ConnectStep::Connect
    }
}

/// A failed connect surfaces the transport's diagnostic as a
/// device-specific error; a successful one moves on to service discovery.
pub fn connect_phase_after_connect(outcome: Result<(), String>) -> (r: Result<
    ConnectStep,
    ButtplugError,
>)
    ensures
        outcome is Ok ==> r == Ok::<ConnectStep, ButtplugError>(ConnectStep::DiscoverServices),
        outcome matches Err(m) ==> r == Err::<ConnectStep, ButtplugError>(
            ButtplugError::DeviceSpecificError(m),
        ),
{
    match outcome {
        Ok(()) => Ok(ConnectStep::DiscoverServices),
        Err(m) => Err(ButtplugError::DeviceSpecificError(m)),
    }
}

/// The diagnostic string of a failed service discovery.
pub open spec fn discover_error_message(detail: Seq<char>) -> Seq<char> {
    "BTLEPlug error discovering characteristics: "@ + detail
}

/// A failed service discovery is a connection error (the device never
/// becomes usable); success moves on to specialization.
pub fn connect_phase_after_discover(outcome: Result<(), String>) -> (r: Result<
    ConnectStep,
    ButtplugError,
>)
    ensures
        outcome is Ok ==> r == Ok::<ConnectStep, ButtplugError>(ConnectStep::Specialize),
        outcome matches Err(m) ==> (r matches Err(e) && e matches
            ButtplugError::DeviceConnectionError(text) && text@ == discover_error_message(m@)),
{
    match outcome {
        Ok(()) => Ok(ConnectStep::Specialize),
        Err(m) => {
            let mut text = String::from_str("BTLEPlug error discovering characteristics: ");
            text.append(m.as_str());
            Err(ButtplugError::DeviceConnectionError(text))
        },
    }
}

/// Resolves logical endpoints against one connected peripheral: what was
/// needed from the protocol's specifiers and what the peripheral reported.
#[derive(Clone, Debug, PartialEq, Eq)]
pub struct BtleplugHardwareSpecializer {
    pub name: String,
    pub address: String,
}

impl BtleplugHardwareSpecializer {
    pub fn new(name: &str, address: String) -> (r: BtleplugHardwareSpecializer)
        ensures
            r.name@ == name@,
            r.address == address,
    {
        BtleplugHardwareSpecializer { name: String::from_str(name), address }
    }

    /// Binds every characteristic the protocol's Bluetooth LE specifier
    /// asks for and the peripheral offers, walking the protocol services in
    /// order, the peripheral's services in order within each, and each
    /// service's characteristics in order. With no Bluetooth LE specifier
    /// present the device cannot be mapped and specialization fails.
    #[verifier::loop_isolation(false)]
    pub fn specialize(
        &self,
        specifiers: &Vec<ProtocolCommunicationSpecifier>,
        device_services: &Vec<DeviceService>,
    ) -> (r: Result<EndpointMap, ButtplugError>)
        ensures
            first_ble(specifiers@) is None ==> (r matches Err(e) && e matches
                ButtplugError::DeviceConnectionError(m) && m@ == no_ble_specifier_message(
                self.name@,
                self.address@,
            )),
            first_ble(specifiers@) matches Some(btle) ==> (r matches Ok(map) && map.model()
                =~= bind_all(empty_bindings(), btle.services@, device_services@)),
    {
        let mut i: usize = 0;
        while i < specifiers.len()
            invariant
                i <= specifiers@.len(),
                forall|j: int| 0 <= j < i ==> !((#[trigger] specifiers@[j]) is BluetoothLE),
            decreases specifiers@.len() - i,
        {
            match &specifiers[i] {
                ProtocolCommunicationSpecifier::BluetoothLE(btle) => {
                    proof {
                        lemma_first_ble_skip(specifiers@, i as int);
                        assert(specifiers@.skip(i as int)[0] == specifiers@[i as int]);
                    }
                    return Ok(Self::bind_endpoints(btle, device_services));
                },
                _ => {},
            }
            i = i + 1;
        }
        proof {
            lemma_first_ble_skip(specifiers@, specifiers@.len() as int);
            assert(specifiers@.skip(specifiers@.len() as int) =~= Seq::empty());
        }
        let mut text = String::from_str("Can't find btle protocol specifier mapping for device ");
        text.append(self.name.as_str());
        text.append(" ");
        text.append(self.address.as_str());
        proof {
            assert(text@ =~= no_ble_specifier_message(self.name@, self.address@));
        }
        Err(ButtplugError::DeviceConnectionError(text))
    }

    /// The nested walk itself: protocol services over peripheral services
    /// over requested characteristics.
    #[verifier::loop_isolation(false)]
    fn bind_endpoints(btle: &BluetoothLESpecifier, device_services: &Vec<DeviceService>) -> (map:
        EndpointMap)
        ensures
            map.model() =~= bind_all(empty_bindings(), btle.services@, device_services@),
    {
        let mut map = EndpointMap::new();
        let mut pi: usize = 0;
        while pi < btle.services.len()
            invariant
                pi <= btle.services@.len(),
                map.model() =~= bind_all(
                    empty_bindings(),
                    btle.services@.take(pi as int),
                    device_services@,
                ),
            decreases btle.services@.len() - pi,
        {
            let proto = &btle.services[pi];
            let ghost base = map.model();
            let mut di: usize = 0;
            while di < device_services.len()
                invariant
                    di <= device_services@.len(),
                    map.model() =~= bind_devices(base, *proto, device_services@.take(di as int)),
                decreases device_services@.len() - di,
            {
                let service = &device_services[di];
                if service.uuid == proto.service_uuid {
                    let ghost mid = map.model();
                    let mut ci: usize = 0;
                    while ci < proto.characteristics.len()
                        invariant
                            ci <= proto.characteristics@.len(),
                            map.model() =~= bind_chars(
                                mid,
                                proto.characteristics@.take(ci as int),
                                service.characteristics@,
                            ),
                        decreases proto.characteristics@.len() - ci,
                    {
                        let (endpoint, chr_uuid) = proto.characteristics[ci];
                        if offers_characteristic(&service.characteristics, chr_uuid) {
                            map.bind(endpoint, chr_uuid);
                        }
                        ci = ci + 1;
                        proof {
                            assert(proto.characteristics@.take(ci as int).drop_last()
                                =~= proto.characteristics@.take(ci - 1));
                            assert(proto.characteristics@.take(ci as int).last()
                                == proto.characteristics@[ci - 1]);
                        }
                    }
                    proof {
                        assert(proto.characteristics@.take(proto.characteristics@.len() as int)
                            =~= proto.characteristics@);
                    }
                }
                di = di + 1;
                proof {
                    assert(device_services@.take(di as int).drop_last() =~= device_services@.take(
                        di - 1,
                    ));
                    assert(device_services@.take(di as int).last() == device_services@[di - 1]);
                }
            }
            proof {
                assert(device_services@.take(device_services@.len() as int) =~= device_services@);
            }
            pi = pi + 1;
            proof {
                assert(btle.services@.take(pi as int).drop_last() =~= btle.services@.take(pi - 1));
                assert(btle.services@.take(pi as int).last() == btle.services@[pi - 1]);
            }
        }
        proof {
            assert(btle.services@.take(btle.services@.len() as int) =~= btle.services@);
        }
        map
    }
}


/// The events a hardware driver broadcasts: a notification payload from a
/// bound endpoint, or the peripheral's disconnection. Both carry the
/// peripheral's address.
#[derive(Clone, Debug, PartialEq, Eq)]
pub enum HardwareEvent {
    Notification(String, Endpoint, Vec<u8>),
    Disconnected(String),
}

/// An endpoint-addressed write request.
#[derive(Clone, Debug, PartialEq, Eq)]
pub struct HardwareWriteCmd {
    pub endpoint: Endpoint,
    pub data: Vec<u8>,
    pub write_with_response: bool,
}

/// An endpoint-addressed read request.
#[derive(Clone, Copy, Debug, PartialEq, Eq, Structural)]
pub struct HardwareReadCmd {
    pub endpoint: Endpoint,
    pub length: u32,
    pub timeout_ms: u32,
}

/// An endpoint-addressed subscribe request.
#[derive(Clone, Copy, Debug, PartialEq, Eq, Structural)]
pub struct HardwareSubscribeCmd {
    pub endpoint: Endpoint,
}

/// An endpoint-addressed unsubscribe request.
#[derive(Clone, Copy, Debug, PartialEq, Eq, Structural)]
pub struct HardwareUnsubscribeCmd {
    pub endpoint: Endpoint,
}

/// What a read returns: the data read from one endpoint. The device index
/// is zero here; the reading is not yet attributed to a registry index.
#[derive(Clone, Debug, PartialEq, Eq)]
pub struct RawReading {
    pub device_index: u32,
    pub endpoint: Endpoint,
    pub data: Vec<u8>,
}

/// Whether a Bluetooth LE write expects an acknowledgement.
#[derive(Clone, Copy, Debug, PartialEq, Eq, Structural)]
pub enum BleWriteKind {
    WithResponse,
    WithoutResponse,
}

/// A fully resolved write: which characteristic, which bytes, which kind.
#[derive(Clone, Debug, PartialEq, Eq)]
pub struct BleWriteOp {
    pub characteristic_uuid: u128,
    pub data: Vec<u8>,
    pub write_kind: BleWriteKind,
}

/// One raw input to the driver's bridge task: a value notification from
/// the peripheral, or an event from the transport's central stream.
#[derive(Clone, Debug, PartialEq, Eq)]
pub enum BridgeInput {
    Notification { uuid: u128, value: Vec<u8> },
    CentralDeviceDisconnected { address: String },
    OtherCentralEvent,
}

/// What the bridge does with one input: what to broadcast (if anything),
/// whether to log the unknown-UUID diagnostic, and whether the bridge task
/// terminates.
#[derive(Clone, Debug, PartialEq, Eq)]
pub struct BridgeOutcome {
    pub emit: Option<HardwareEvent>,
    pub log_unknown_uuid: bool,
    pub exit: bool,
}

/// The driver state for one connected Bluetooth LE peripheral: its name
/// and address, the endpoints bound at specialization time, and whether
/// the unknown-UUID diagnostic has already been logged (it is logged once
/// per driver lifetime).
#[derive(Clone, Debug, PartialEq, Eq)]
pub struct BtlePlugHardware {
    pub name: String,
    pub address: String,
    pub endpoints: EndpointMap,
    pub error_notification: bool,
}

impl BtlePlugHardware {
    pub fn new(name: &str, address: String, endpoints: EndpointMap) -> (r: BtlePlugHardware)
        ensures
            r.name@ == name@,
            r.address == address,
            r.endpoints == endpoints,
            r.error_notification == false,
    {
        BtlePlugHardware {
            name: String::from_str(name),
            address,
            endpoints,
            error_notification: false,
        }
    }

    /// Resolves a write command: to the characteristic its endpoint is
    /// bound to, with the requested write kind, or to the invalid-endpoint
    /// error when the endpoint is not bound on this driver.
    pub fn write_value(&self, msg: HardwareWriteCmd) -> (r: Result<BleWriteOp, ButtplugError>)
        ensures
            self.endpoints.model().endpoints.get(msg.endpoint) matches Some(uuid) ==> r == Ok::<
                BleWriteOp,
                ButtplugError,
            >(
                BleWriteOp {
                    characteristic_uuid: uuid,
                    data: msg.data,
                    write_kind: if msg.write_with_response {
                        BleWriteKind::WithResponse
                    } else {
                        BleWriteKind::WithoutResponse
                    },
                },
            ),
            self.endpoints.model().endpoints.get(msg.endpoint) is None ==> r == Err::<
                BleWriteOp,
                ButtplugError,
            >(ButtplugError::InvalidEndpoint(msg.endpoint)),
    {
        match self.endpoints.characteristic_for(msg.endpoint) {
            Some(uuid) => {
                let write_kind = if msg.write_with_response {
                    BleWriteKind::WithResponse
                } else {
                    BleWriteKind::WithoutResponse
                };
                Ok(BleWriteOp { characteristic_uuid: uuid, data: msg.data, write_kind })
            },
            None => Err(ButtplugError::InvalidEndpoint(msg.endpoint)),
        }
    }

    /// Resolves a read command to the characteristic its endpoint is bound
    /// to, or to the invalid-endpoint error.
    pub fn read_value(&self, msg: HardwareReadCmd) -> (r: Result<u128, ButtplugError>)
        ensures
            self.endpoints.model().endpoints.get(msg.endpoint) matches Some(uuid) ==> r == Ok::<
                u128,
                ButtplugError,
            >(uuid),
            self.endpoints.model().endpoints.get(msg.endpoint) is None ==> r == Err::<
                u128,
                ButtplugError,
            >(ButtplugError::InvalidEndpoint(msg.endpoint)),
    {
        match self.endpoints.characteristic_for(msg.endpoint) {
            Some(uuid) => Ok(uuid),
            None => Err(ButtplugError::InvalidEndpoint(msg.endpoint)),
        }
    }

    /// Resolves a subscribe command to its characteristic, or to the
    /// invalid-endpoint error.
    pub fn subscribe(&self, msg: HardwareSubscribeCmd) -> (r: Result<u128, ButtplugError>)
        ensures
            self.endpoints.model().endpoints.get(msg.endpoint) matches Some(uuid) ==> r == Ok::<
                u128,
                ButtplugError,
            >(uuid),
            self.endpoints.model().endpoints.get(msg.endpoint) is None ==> r == Err::<
                u128,
                ButtplugError,
            >(ButtplugError::InvalidEndpoint(msg.endpoint)),
    {
        match self.endpoints.characteristic_for(msg.endpoint) {
            Some(uuid) => Ok(uuid),
            None => Err(ButtplugError::InvalidEndpoint(msg.endpoint)),
        }
    }

    /// Resolves an unsubscribe command to its characteristic, or to the
    /// invalid-endpoint error.
    pub fn unsubscribe(&self, msg: HardwareUnsubscribeCmd) -> (r: Result<u128, ButtplugError>)
        ensures
            self.endpoints.model().endpoints.get(msg.endpoint) matches Some(uuid) ==> r == Ok::<
                u128,
                ButtplugError,
            >(uuid),
            self.endpoints.model().endpoints.get(msg.endpoint) is None ==> r == Err::<
                u128,
                ButtplugError,
            >(ButtplugError::InvalidEndpoint(msg.endpoint)),
    {
        match self.endpoints.characteristic_for(msg.endpoint) {
            Some(uuid) => Ok(uuid),
            None => Err(ButtplugError::InvalidEndpoint(msg.endpoint)),
        }
    }

    /// What a completed transport write becomes: success, or the
    /// transport's diagnostic wrapped as a device-specific error.
    pub fn complete_write(outcome: Result<(), String>) -> (r: Result<(), ButtplugError>)
        ensures
            outcome is Ok ==> r is Ok,
            outcome matches Err(m) ==> r == Err::<(), ButtplugError>(
                ButtplugError::DeviceSpecificError(m),
            ),
    {
        match outcome {
            Ok(()) => Ok(()),
            Err(m) => Err(ButtplugError::DeviceSpecificError(m)),
        }
    }

    /// What a completed transport read becomes: a raw reading of the
    /// endpoint that was read (attributed to device index zero), or the
    /// transport's diagnostic wrapped as a device-specific error.
    pub fn complete_read(endpoint: Endpoint, outcome: Result<Vec<u8>, String>) -> (r: Result<
        RawReading,
        ButtplugError,
    >)
        ensures
            outcome matches Ok(data) ==> r == Ok::<RawReading, ButtplugError>(
                RawReading { device_index: 0, endpoint, data },
            ),
            outcome matches Err(m) ==> r == Err::<RawReading, ButtplugError>(
                ButtplugError::DeviceSpecificError(m),
            ),
    {
        match outcome {
            Ok(data) => Ok(RawReading { device_index: 0, endpoint, data }),
            Err(m) => Err(ButtplugError::DeviceSpecificError(m)),
        }
    }

    /// One step of the bridge task. A notification from a bound
    /// characteristic is broadcast under its endpoint, unless nobody
    /// subscribes, in which case it is dropped. A notification from an
    /// unknown characteristic is never broadcast; the diagnostic is logged
    /// only the first time. A central disconnection of this peripheral is
    /// broadcast (again only with subscribers present) and terminates the
    /// bridge; anything else on the central stream is ignored.
    pub fn handle_bridge_event(&mut self, input: BridgeInput, receiver_count: u32) -> (r:
        BridgeOutcome)
        ensures
            final(self).name == old(self).name,
            final(self).address == old(self).address,
            final(self).endpoints == old(self).endpoints,
            input matches BridgeInput::Notification { uuid, value } ==> {
                match old(self).endpoints.model().uuids.get(uuid) {
                    Some(endpoint) => {
                        &&& final(self).error_notification == old(self).error_notification
                        &&& r.log_unknown_uuid == false
                        &&& r.exit == false
                        &&& (receiver_count == 0 ==> r.emit is None)
                        &&& (receiver_count != 0 ==> r.emit == Some(
                            HardwareEvent::Notification(old(self).address, endpoint, value),
                        ))
                    },
                    None => {
                        &&& final(self).error_notification == true
                        &&& r.log_unknown_uuid == !old(self).error_notification
                        &&& r.emit is None
                        &&& r.exit == false
                    },
                }
            },
            input matches BridgeInput::CentralDeviceDisconnected { address } ==> {
                &&& final(self).error_notification == old(self).error_notification
                &&& r.log_unknown_uuid == false
                &&& (address@ == old(self).address@ ==> {
                    &&& r.exit == true
                    &&& (receiver_count == 0 ==> r.emit is None)
                    &&& (receiver_count != 0 ==> r.emit == Some(
                        HardwareEvent::Disconnected(old(self).address),
                    ))
                })
                &&& (address@ != old(self).address@ ==> r.emit is None && r.exit == false)
            },
            input is OtherCentralEvent ==> final(self).error_notification == old(
                self,
            ).error_notification && r.emit is None && r.log_unknown_uuid == false && r.exit
                == false,
    {
        match input {
            BridgeInput::Notification { uuid, value } => {
                match self.endpoints.endpoint_for_uuid(uuid) {
                    Some(endpoint) => {
                        if receiver_count == 0 {
                            BridgeOutcome { emit: None, log_unknown_uuid: false, exit: false }
                        } else {
                            BridgeOutcome {
                                emit: Some(
                                    HardwareEvent::Notification(
                                        self.address.clone(),
                                        endpoint,
                                        value,
                                    ),
                                ),
                                log_unknown_uuid: false,
                                exit: false,
                            }
                        }
                    },
                    None => {
                        let log_unknown_uuid = !self.error_notification;
                        self.error_notification = true;
                        BridgeOutcome { emit: None, log_unknown_uuid, exit: false }
                    },
                }
            },
            BridgeInput::CentralDeviceDisconnected { address } => {
                if address == self.address {
                    let emit = if receiver_count != 0 {
                        Some(HardwareEvent::Disconnected(self.address.clone()))
                    } else {
                        None
                    };
                    BridgeOutcome { emit, log_unknown_uuid: false, exit: true }
                } else {
                    BridgeOutcome { emit: None, log_unknown_uuid: false, exit: false }
                }
            },
            BridgeInput::OtherCentralEvent => {
                BridgeOutcome { emit: None, log_unknown_uuid: false, exit: false }
            },
        }
    }
}

} // verus!
