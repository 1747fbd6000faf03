//! The client-side event loop: the hub that mirrors the server's device
//! roster, fans device events out to the client-device handles, and routes
//! outbound messages toward the connector.
//!
//! The loop itself suspends on channels; what is verified here is every
//! decision it takes. The roster is a map from device index to device
//! snapshot; the event sinks are a list with one entry per live
//! client-device handle, keyed by device index.

use vstd::prelude::*;

use crate::messages::{
    ButtplugClientRequest, ButtplugServerMessage, DeviceList, DeviceMessageInfo,
    MessageAttributes,
};

verus! {

/// Events delivered to one client-device handle.
#[derive(Clone, Debug, PartialEq, Eq)]
pub enum ButtplugClientDeviceEvent {
    /// The device has disconnected from the server.
    DeviceDisconnect,
    /// The client has disconnected from the server.
    ClientDisconnect,
    /// A message from the server addressed to this device.
    Message(ButtplugServerMessage),
}

/// Messages from the client to its event loop. Requests that carry a reply
/// slot in the runtime (`Disconnect`, `RequestDeviceList`, `Message`) are
/// answered through the actions the loop step returns.
#[derive(Clone, Debug, PartialEq, Eq)]
pub enum ButtplugClientMessage {
    /// Ask the connector to disconnect and stop the loop.
    Disconnect,
    /// Update the roster from a `DeviceList` message and emit an added
    /// event per entry.
    HandleDeviceList(DeviceList),
    /// Build a fresh client-device handle for every known device.
    RequestDeviceList,
    /// Send a message to the server through the connector.
    Message(ButtplugClientRequest),
}

/// A handle on one server-side device, as handed to the consuming
/// application. Many handles may share one device index.
#[derive(Clone, Debug, PartialEq, Eq)]
pub struct ButtplugClientDevice {
    pub device_index: u32,
    pub name: String,
    pub allowed_messages: MessageAttributes,
}

/// Events the loop emits outward to the consuming application.
#[derive(Clone, Debug, PartialEq, Eq)]
pub enum ButtplugClientEvent {
    DeviceAdded(ButtplugClientDevice),
    DeviceRemoved(DeviceMessageInfo),
}

/// The inputs the loop waits on: a server message from the connector, a
/// client message, an outbound request from a device handle, or closure of
/// the client or connector channel.
#[derive(Clone, Debug, PartialEq, Eq)]
pub enum StreamReturn {
    ConnectorMessage(ButtplugServerMessage),
    ClientMessage(ButtplugClientMessage),
    DeviceMessage(ButtplugClientRequest),
    Disconnect,
}

/// What the loop asks the runtime to do in reaction to one input.
#[derive(Clone, Debug, PartialEq, Eq)]
pub enum ClientLoopAction {
    /// Deliver an event to the consuming application.
    EmitClientEvent(ButtplugClientEvent),
    /// Send the request through the connector and fulfil the request's
    /// reply slot with the connector's reply.
    ForwardToConnector(ButtplugClientRequest),
    /// Fulfil the pending `RequestDeviceList` reply slot with these
    /// handles.
    ReplyDeviceList(Vec<ButtplugClientDevice>),
    /// Ask the connector to disconnect and fulfil the disconnect slot.
    DisconnectConnector,
}

/// The roster a sequence of snapshots denotes: later entries for the same
/// index supersede earlier ones.
pub open spec fn roster_of(s: Seq<DeviceMessageInfo>) -> Map<u32, DeviceMessageInfo>
    decreases s.len(),
{
    if s.len() == 0 {
        Map::empty()
    } else {
        roster_of(s.drop_last()).insert(s.last().device_index, s.last())
    }
}

/// No two entries carry the same device index.
pub open spec fn distinct_roster(s: Seq<DeviceMessageInfo>) -> bool {
    forall|i: int, j: int|
        0 <= i < j < s.len() ==> (#[trigger] s[i]).device_index != (#[trigger] s[j]).device_index
}

/// Keeps the entries whose device index is not `idx`.
pub open spec fn not_index(idx: u32) -> spec_fn(DeviceMessageInfo) -> bool {
    |d: DeviceMessageInfo| d.device_index != idx
}

proof fn lemma_roster_of_push(s: Seq<DeviceMessageInfo>, info: DeviceMessageInfo)
    ensures
        roster_of(s.push(info)) == roster_of(s).insert(info.device_index, info),
{
    assert(s.push(info).drop_last() =~= s);
    assert(s.push(info).last() == info);
}

proof fn lemma_roster_of_update(s: Seq<DeviceMessageInfo>, p: int, info: DeviceMessageInfo)
    requires
        distinct_roster(s),
        0 <= p < s.len(),
        s[p].device_index == info.device_index,
    ensures
        roster_of(s.update(p, info)) =~= roster_of(s).insert(info.device_index, info),
    decreases s.len(),
{
    let s0 = s.drop_last();
    let x = s.last();
    if p == s.len() - 1 {
        assert(s.update(p, info).drop_last() =~= s0);
        assert(s.update(p, info).last() == info);
    } else {
        assert(s.update(p, info).drop_last() =~= s0.update(p, info));
        assert(s.update(p, info).last() == x);
        lemma_roster_of_update(s0, p, info);
        assert(x.device_index != info.device_index);
    }
}

proof fn lemma_roster_of_remove(s: Seq<DeviceMessageInfo>, idx: u32)
    ensures
        roster_of(s.filter(not_index(idx))) =~= roster_of(s).remove(idx),
    decreases s.len(),
{
    reveal(Seq::filter);
    if s.len() == 0 {
        assert(s.filter(not_index(idx)) =~= Seq::empty());
    } else {
        let s0 = s.drop_last();
        let x = s.last();
        lemma_roster_of_remove(s0, idx);
        if x.device_index != idx {
            assert(s.filter(not_index(idx)) == s0.filter(not_index(idx)).push(x));
            lemma_roster_of_push(s0.filter(not_index(idx)), x);
        } else {
            assert(s.filter(not_index(idx)) == s0.filter(not_index(idx)));
        }
    }
}

/// Every index of the roster has at least one event sink.
pub open spec fn sinks_cover(roster: Map<u32, DeviceMessageInfo>, sinks: Seq<u32>) -> bool {
    forall|idx: u32| #[trigger] roster.contains_key(idx) ==> sinks.contains(idx)
}

/// The state the client event loop owns: the roster of known devices and
/// the per-handle event sinks, one entry per handle, keyed by device index.
pub struct ButtplugClientEventLoop {
    pub devices: Vec<DeviceMessageInfo>,
    pub device_event_senders: Vec<u32>,
}

impl ButtplugClientEventLoop {
    /// The roster as a map from device index to snapshot.
    pub open spec fn roster(self) -> Map<u32, DeviceMessageInfo> {
        roster_of(self.devices@)
    }

    /// The loop keeps one snapshot per index, and every known device has at
    /// least one event sink.
    pub open spec fn wf(self) -> bool {
        &&& distinct_roster(self.devices@)
        &&& sinks_cover(self.roster(), self.device_event_senders@)
    }

    /// A fresh loop: no device known, no sink.
    pub fn new() -> (r: ButtplugClientEventLoop)
        ensures
            r.wf(),
            r.roster() =~= Map::empty(),
            r.device_event_senders@ =~= Seq::empty(),
    {
        ButtplugClientEventLoop { devices: Vec::new(), device_event_senders: Vec::new() }
    }

    /// Builds a client-device handle for the given snapshot and registers
    /// one more event sink under its index. The same device may back
    /// arbitrarily many handles.
    pub fn create_client_device(&mut self, info: &DeviceMessageInfo) -> (dev: ButtplugClientDevice)
        ensures
            final(self).devices@ == old(self).devices@,
            final(self).device_event_senders@ == old(self).device_event_senders@.push(
                info.device_index,
            ),
            dev == (ButtplugClientDevice {
                device_index: info.device_index,
                name: info.device_name,
                allowed_messages: info.device_messages,
            }),
    {
        self.device_event_senders.push(info.device_index);
        ButtplugClientDevice {
            device_index: info.device_index,
            name: info.device_name.clone(),
            allowed_messages: info.device_messages,
        }
    }

    /// Puts one snapshot into the roster, superseding any earlier snapshot
    /// of the same index. The sinks are untouched.
    #[verifier::loop_isolation(false)]
    fn roster_insert(&mut self, info: DeviceMessageInfo)
        requires
            distinct_roster(old(self).devices@),
        ensures
            distinct_roster(final(self).devices@),
            final(self).roster() =~= old(self).roster().insert(info.device_index, info),
            final(self).device_event_senders@ == old(self).device_event_senders@,
    {
        let ghost orig = self.devices@;
        let mut i: usize = 0;
        while i < self.devices.len()
            invariant
                i <= self.devices@.len(),
                self.devices@ == orig,
                self.device_event_senders@ == old(self).device_event_senders@,
                forall|j: int| 0 <= j < i ==> (#[trigger] orig[j]).device_index != info.device_index,
            decreases self.devices@.len() - i,
        {
            if self.devices[i].device_index == info.device_index {
                proof {
                    lemma_roster_of_update(orig, i as int, info);
                }
                let slot = vstd::std_specs::vec::vec_index_mut(&mut self.devices, i);
                *slot = info;
                return ;
            }
            i = i + 1;
        }
        proof {
            lemma_roster_of_push(orig, info);
        }
        self.devices.push(info);
    }

    /// Takes every snapshot of the given index out of the roster, and every
    /// event sink with it; the sinks of other indices stay.
    #[verifier::loop_isolation(false)]
    fn roster_remove(&mut self, device_index: u32)
        requires
            distinct_roster(old(self).devices@),
        ensures
            distinct_roster(final(self).devices@),
            final(self).roster() =~= old(self).roster().remove(device_index),
            final(self).device_event_senders@ == old(self).device_event_senders@.filter(
                |k: u32| k != device_index,
            ),
    {
        let ghost orig = self.devices@;
        let ghost orig_sinks = self.device_event_senders@;
        let mut kept: Vec<DeviceMessageInfo> = Vec::new();
        let mut i: usize = 0;
        while i < self.devices.len()
            invariant
                i <= orig.len(),
                self.devices@ == orig,
                kept@ == orig.take(i as int).filter(not_index(device_index)),
            decreases orig.len() - i,
        {
            let entry = &self.devices[i];
            proof {
                assert(orig.take(i + 1).drop_last() =~= orig.take(i as int));
                assert(orig.take(i + 1).last() == orig[i as int]);
                reveal(Seq::filter);
            }
            if entry.device_index != device_index {
                kept.push(entry.duplicate());
            }
            i = i + 1;
            proof {
                assert(kept@ == orig.take(i as int).filter(not_index(device_index)));
            }
        }
        proof {
            assert(orig.take(orig.len() as int) =~= orig);
            lemma_roster_of_remove(orig, device_index);
        }
        self.devices = kept;

        let mut kept_sinks: Vec<u32> = Vec::new();
        let mut i: usize = 0;
        while i < self.device_event_senders.len()
            invariant
                i <= orig_sinks.len(),
                self.device_event_senders@ == orig_sinks,
                kept_sinks@ == orig_sinks.take(i as int).filter(|k: u32| k != device_index),
            decreases orig_sinks.len() - i,
        {
            let k = self.device_event_senders[i];
            proof {
                assert(orig_sinks.take(i + 1).drop_last() =~= orig_sinks.take(i as int));
                assert(orig_sinks.take(i + 1).last() == orig_sinks[i as int]);
                reveal(Seq::filter);
            }
            if k != device_index {
                kept_sinks.push(k);
            }
            i = i + 1;
            proof {
                assert(kept_sinks@ == orig_sinks.take(i as int).filter(
                    |k: u32| k != device_index,
                ));
            }
        }
        proof {
            assert(orig_sinks.take(orig_sinks.len() as int) =~= orig_sinks);
        }
        self.device_event_senders = kept_sinks;
        proof {
            lemma_filter_distinct(orig, not_index(device_index));
        }
    }
}

/// Every element of a filtered sequence is an element of the sequence.
proof fn lemma_filter_elements(
    s: Seq<DeviceMessageInfo>,
    pred: spec_fn(DeviceMessageInfo) -> bool,
)
    ensures
        forall|i: int| 0 <= i < s.filter(pred).len() ==> s.contains(#[trigger] s.filter(pred)[i]),
    decreases s.len(),
{
    reveal(Seq::filter);
    if s.len() > 0 {
        let s0 = s.drop_last();
        let x = s.last();
        let f0 = s0.filter(pred);
        lemma_filter_elements(s0, pred);
        assert forall|i: int| 0 <= i < s.filter(pred).len() implies s.contains(
            #[trigger] s.filter(pred)[i],
        ) by {
            if pred(x) && i == s.filter(pred).len() - 1 {
                assert(s[s.len() - 1] == x);
            } else {
                assert(s.filter(pred)[i] == f0[i]);
                assert(s0.contains(f0[i]));
                let j = choose|j: int| 0 <= j < s0.len() && s0[j] == f0[i];
                assert(s[j] == f0[i]);
            }
        }
    }
}

/// A filtered sequence of roster entries with distinct indices still has
/// distinct indices.
proof fn lemma_filter_distinct(s: Seq<DeviceMessageInfo>, pred: spec_fn(DeviceMessageInfo) -> bool)
    requires
        distinct_roster(s),
    ensures
        distinct_roster(s.filter(pred)),
    decreases s.len(),
{
    reveal(Seq::filter);
    if s.len() > 0 {
        let s0 = s.drop_last();
        let x = s.last();
        let f0 = s0.filter(pred);
        assert(distinct_roster(s0)) by {
            assert(forall|i: int| 0 <= i < s0.len() ==> s0[i] == s[i]);
        }
        lemma_filter_distinct(s0, pred);
        lemma_filter_elements(s0, pred);
        if pred(x) {
            assert(s.filter(pred) == f0.push(x));
            assert forall|a: int, b: int|
                0 <= a < b < f0.push(x).len() implies (#[trigger] f0.push(x)[a]).device_index != (
            #[trigger] f0.push(x)[b]).device_index by {
                if b == f0.len() {
                    assert(f0.push(x)[a] == f0[a]);
                    assert(s0.contains(f0[a]));
                    let j = choose|j: int| 0 <= j < s0.len() && s0[j] == f0[a];
                    assert(s[j] == f0[a]);
                    assert(s[j].device_index != x.device_index);
                } else {
                    assert(f0.push(x)[a] == f0[a]);
                    assert(f0.push(x)[b] == f0[b]);
                }
            }
        }
    }
}


/// The roster after a list of snapshots is folded in, in order: later
/// entries for the same index supersede earlier ones.
pub open spec fn roster_plus(
    m: Map<u32, DeviceMessageInfo>,
    entries: Seq<DeviceMessageInfo>,
) -> Map<u32, DeviceMessageInfo>
    decreases entries.len(),
{
    if entries.len() == 0 {
        m
    } else {
        roster_plus(m, entries.drop_last()).insert(entries.last().device_index, entries.last())
    }
}

/// The index a snapshot's event sink is keyed by.
pub open spec fn sink_index_of(d: DeviceMessageInfo) -> u32 {
    d.device_index
}

/// The handle built for one snapshot.
pub open spec fn handle_of(d: DeviceMessageInfo) -> ButtplugClientDevice {
    ButtplugClientDevice {
        device_index: d.device_index,
        name: d.device_name,
        allowed_messages: d.device_messages,
    }
}

/// The added event emitted outward for one snapshot.
pub open spec fn added_event_of(d: DeviceMessageInfo) -> ButtplugClientEvent {
    ButtplugClientEvent::DeviceAdded(handle_of(d))
}

/// The loop action that emits the added event for one snapshot.
pub open spec fn emit_added_of(d: DeviceMessageInfo) -> ClientLoopAction {
    ClientLoopAction::EmitClientEvent(added_event_of(d))
}

/// The connector hands this loop only the roster messages; anything else
/// reaching it is an implementation error, and a removal names a known
/// index (the server removes only what it added).
pub open spec fn connector_event_valid(
    roster: Map<u32, DeviceMessageInfo>,
    msg: ButtplugServerMessage,
) -> bool {
    match msg {
        ButtplugServerMessage::DeviceAdded { .. } => true,
        ButtplugServerMessage::DeviceList(_) => true,
        ButtplugServerMessage::DeviceRemoved { device_index } => roster.contains_key(device_index),
        _ => false,
    }
}

impl ButtplugClientEventLoop {
    /// Looks one snapshot up by index.
    #[verifier::loop_isolation(false)]
    pub fn roster_get(&self, device_index: u32) -> (r: Option<DeviceMessageInfo>)
        requires
            distinct_roster(self.devices@),
        ensures
            r == self.roster().get(device_index),
    {
        proof {
            lemma_roster_of_membership(self.devices@);
        }
        let mut i: usize = 0;
        while i < self.devices.len()
            invariant
                i <= self.devices@.len(),
                forall|j: int|
                    0 <= j < i ==> (#[trigger] self.devices@[j]).device_index != device_index,
            decreases self.devices@.len() - i,
        {
            if self.devices[i].device_index == device_index {
                return Some(self.devices[i].duplicate());
            }
            i = i + 1;
        }
        None
    }

    /// Folds the entries of a device list into the roster, in order,
    /// building one handle and emitting one added event per entry, in list
    /// order.
    #[verifier::loop_isolation(false)]
    fn handle_device_list_entries(&mut self, entries: &Vec<DeviceMessageInfo>) -> (events: Vec<
        ButtplugClientEvent,
    >)
        requires
            old(self).wf(),
        ensures
            final(self).wf(),
            final(self).roster() =~= roster_plus(old(self).roster(), entries@),
            final(self).device_event_senders@ =~= old(self).device_event_senders@
                + entries@.map_values(|d: DeviceMessageInfo| sink_index_of(d)),
            events@ =~= entries@.map_values(|d: DeviceMessageInfo| added_event_of(d)),
    {
        let mut events: Vec<ButtplugClientEvent> = Vec::new();
        let mut i: usize = 0;
        while i < entries.len()
            invariant
                i <= entries@.len(),
                self.wf(),
                self.roster() =~= roster_plus(old(self).roster(), entries@.take(i as int)),
                self.device_event_senders@ =~= old(self).device_event_senders@ + entries@.take(
                    i as int,
                ).map_values(|d: DeviceMessageInfo| sink_index_of(d)),
                events@ =~= entries@.take(i as int).map_values(
                    |d: DeviceMessageInfo| added_event_of(d),
                ),
            decreases entries@.len() - i,
        {
            let ghost prev_roster = self.roster();
            let ghost prev_sinks = self.device_event_senders@;
            let info = &entries[i];
            let device = self.create_client_device(info);
            self.roster_insert(info.duplicate());
            events.push(ButtplugClientEvent::DeviceAdded(device));
            i = i + 1;
            proof {
                assert(entries@.take(i as int).drop_last() =~= entries@.take(i - 1));
                assert(entries@.take(i as int).last() == entries@[i - 1]);
                assert(self.roster() =~= roster_plus(old(self).roster(), entries@.take(i as int)));
                assert(self.device_event_senders@ =~= old(self).device_event_senders@
                    + entries@.take(i as int).map_values(|d: DeviceMessageInfo| sink_index_of(d)));
                assert(events@ =~= entries@.take(i as int).map_values(
                    |d: DeviceMessageInfo| added_event_of(d),
                ));
                assert(sinks_cover(self.roster(), self.device_event_senders@)) by {
                    assert forall|idx: u32| #[trigger]
                        self.roster().contains_key(idx) implies self.device_event_senders@.contains(
                        idx,
                    ) by {
                        if idx == entries@[i - 1].device_index {
                            let n = self.device_event_senders@.len() - 1;
                            assert(self.device_event_senders@[n] == idx);
                        } else {
                            assert(prev_roster.contains_key(idx));
                            assert(prev_sinks.contains(idx));
                            let j = choose|j: int|
                                0 <= j < prev_sinks.len() && #[trigger] prev_sinks[j] == idx;
                            assert(self.device_event_senders@[j] == idx);
                        }
                    }
                }
            }
        }
        proof {
            assert(entries@.take(entries@.len() as int) =~= entries@);
        }
        events
    }

    /// Updates the roster from one server message and returns the events to
    /// deliver to the application, in order: one added event per new
    /// snapshot, or one removed event carrying the snapshot that left.
    pub fn parse_connector_message(&mut self, msg: ButtplugServerMessage) -> (events: Vec<
        ButtplugClientEvent,
    >)
        requires
            old(self).wf(),
            connector_event_valid(old(self).roster(), msg),
        ensures
            final(self).wf(),
            msg matches ButtplugServerMessage::DeviceAdded {
                device_index,
                device_name,
                device_messages,
            } ==> {
                let info = DeviceMessageInfo { device_index, device_name, device_messages };
                &&& final(self).roster() =~= old(self).roster().insert(device_index, info)
                &&& final(self).device_event_senders@ == old(self).device_event_senders@.push(
                    device_index,
                )
                &&& events@ =~= seq![added_event_of(info)]
            },
            msg matches ButtplugServerMessage::DeviceList(list) ==> {
                &&& final(self).roster() =~= roster_plus(old(self).roster(), list.devices@)
                &&& final(self).device_event_senders@ =~= old(self).device_event_senders@
                    + list.devices@.map_values(|d: DeviceMessageInfo| sink_index_of(d))
                &&& events@ =~= list.devices@.map_values(|d: DeviceMessageInfo| added_event_of(d))
            },
            msg matches ButtplugServerMessage::DeviceRemoved { device_index } ==> {
                &&& final(self).roster() =~= old(self).roster().remove(device_index)
                &&& final(self).device_event_senders@ == old(self).device_event_senders@.filter(
                    |k: u32| k != device_index,
                )
                &&& events@ =~= seq![
                    ButtplugClientEvent::DeviceRemoved(old(self).roster()[device_index]),
                ]
            },
    {
        let mut events: Vec<ButtplugClientEvent> = Vec::new();
        match msg {
            ButtplugServerMessage::DeviceAdded { device_index, device_name, device_messages } => {
                let info = DeviceMessageInfo { device_index, device_name, device_messages };
                let device = self.create_client_device(&info);
                self.roster_insert(info);
                events.push(ButtplugClientEvent::DeviceAdded(device));
                proof {
                    assert(sinks_cover(self.roster(), self.device_event_senders@)) by {
                        assert forall|idx: u32| #[trigger]
                            self.roster().contains_key(idx) implies self
                            .device_event_senders@.contains(idx) by {
                            if idx == device_index {
                                let n = self.device_event_senders@.len() - 1;
                                assert(self.device_event_senders@[n] == idx);
                            } else {
                                let prev_sinks = old(self).device_event_senders@;
                                assert(prev_sinks.contains(idx));
                                let j = choose|j: int|
                                    0 <= j < prev_sinks.len() && #[trigger] prev_sinks[j] == idx;
                                assert(self.device_event_senders@[j] == idx);
                            }
                        }
                    }
                }
            },
            ButtplugServerMessage::DeviceList(list) => {
                events = self.handle_device_list_entries(&list.devices);
            },
            ButtplugServerMessage::DeviceRemoved { device_index } => {
                let info = self.roster_get(device_index);
                self.roster_remove(device_index);
                match info {
                    Some(info) => {
                        events.push(ButtplugClientEvent::DeviceRemoved(info));
                    },
                    None => {
                        proof {
                            assert(false);
                        }
                    },
                }
                proof {
                    assert(sinks_cover(self.roster(), self.device_event_senders@)) by {
                        let pred = |k: u32| k != device_index;
                        let prev_sinks = old(self).device_event_senders@;
                        assert forall|idx: u32| #[trigger]
                            self.roster().contains_key(idx) implies self
                            .device_event_senders@.contains(idx) by {
                            assert(old(self).roster().contains_key(idx));
                            assert(prev_sinks.contains(idx));
                            let j = choose|j: int|
                                0 <= j < prev_sinks.len() && #[trigger] prev_sinks[j] == idx;
                            assert(idx != device_index);
                            prev_sinks.lemma_filter_contains(pred, j);
                        }
                    }
                }
            },
            _ => {
                proof {
                    assert(false);
                }
            },
        }
        events
    }
}

/// In a roster with distinct indices, membership and lookup go by the entry
/// that carries the index.
proof fn lemma_roster_of_membership(s: Seq<DeviceMessageInfo>)
    requires
        distinct_roster(s),
    ensures
        forall|i: int|
            0 <= i < s.len() ==> roster_of(s).get((#[trigger] s[i]).device_index) == Some(s[i]),
        forall|idx: u32|
            #[trigger] roster_of(s).contains_key(idx) ==> exists|i: int|
                0 <= i < s.len() && (#[trigger] s[i]).device_index == idx,
    decreases s.len(),
{
    if s.len() > 0 {
        let s0 = s.drop_last();
        let x = s.last();
        assert(distinct_roster(s0)) by {
            assert(forall|i: int| 0 <= i < s0.len() ==> s0[i] == s[i]);
        }
        lemma_roster_of_membership(s0);
        assert forall|i: int|
            0 <= i < s.len() implies roster_of(s).get((#[trigger] s[i]).device_index) == Some(
            s[i],
        ) by {
            if i < s.len() - 1 {
                assert(s0[i] == s[i]);
                assert(s[i].device_index != x.device_index);
            }
        }
        assert forall|idx: u32| #[trigger]
            roster_of(s).contains_key(idx) implies exists|i: int|
            0 <= i < s.len() && (#[trigger] s[i]).device_index == idx by {
            if idx == x.device_index {
                assert(s[s.len() - 1].device_index == idx);
            } else {
                assert(roster_of(s0).contains_key(idx));
                let i = choose|i: int| 0 <= i < s0.len() && (#[trigger] s0[i]).device_index == idx;
                assert(s[i].device_index == idx);
            }
        }
    }
}


/// Exactly what one client message does to the loop: which actions come
/// out, in order, whether the loop keeps running, and how the roster and
/// the sinks move.
pub open spec fn client_message_step_ok(
    pre: ButtplugClientEventLoop,
    m: ButtplugClientMessage,
    post: ButtplugClientEventLoop,
    actions: Seq<ClientLoopAction>,
    keep_running: bool,
) -> bool {
    match m {
        ButtplugClientMessage::Disconnect => {
            &&& post.devices@ == pre.devices@
            &&& post.device_event_senders@ == pre.device_event_senders@
            &&& actions =~= seq![ClientLoopAction::DisconnectConnector]
            &&& keep_running == false
        },
        ButtplugClientMessage::Message(req) => {
            &&& post.devices@ == pre.devices@
            &&& post.device_event_senders@ == pre.device_event_senders@
            &&& actions =~= seq![ClientLoopAction::ForwardToConnector(req)]
            &&& keep_running == true
        },
        ButtplugClientMessage::RequestDeviceList => {
            &&& post.devices@ == pre.devices@
            &&& post.device_event_senders@ =~= pre.device_event_senders@
                + pre.devices@.map_values(|d: DeviceMessageInfo| sink_index_of(d))
            &&& actions.len() == 1
            &&& (actions[0] matches ClientLoopAction::ReplyDeviceList(hs) && hs@
                =~= pre.devices@.map_values(|d: DeviceMessageInfo| handle_of(d)))
            &&& keep_running == true
        },
        ButtplugClientMessage::HandleDeviceList(list) => {
            &&& post.roster() =~= roster_plus(pre.roster(), list.devices@)
            &&& post.device_event_senders@ =~= pre.device_event_senders@
                + list.devices@.map_values(|d: DeviceMessageInfo| sink_index_of(d))
            &&& actions =~= list.devices@.map_values(|d: DeviceMessageInfo| emit_added_of(d))
            &&& keep_running == true
        },
    }
}

/// Exactly what one connector message does to the loop, with the emitted
/// client events wrapped as actions.
pub open spec fn connector_message_step_ok(
    pre: ButtplugClientEventLoop,
    msg: ButtplugServerMessage,
    post: ButtplugClientEventLoop,
    actions: Seq<ClientLoopAction>,
) -> bool {
    match msg {
        ButtplugServerMessage::DeviceAdded { device_index, device_name, device_messages } => {
            let info = DeviceMessageInfo { device_index, device_name, device_messages };
            &&& post.roster() =~= pre.roster().insert(device_index, info)
            &&& post.device_event_senders@ == pre.device_event_senders@.push(device_index)
            &&& actions =~= seq![ClientLoopAction::EmitClientEvent(added_event_of(info))]
        },
        ButtplugServerMessage::DeviceList(list) => {
            &&& post.roster() =~= roster_plus(pre.roster(), list.devices@)
            &&& post.device_event_senders@ =~= pre.device_event_senders@
                + list.devices@.map_values(|d: DeviceMessageInfo| sink_index_of(d))
            &&& actions =~= list.devices@.map_values(|d: DeviceMessageInfo| emit_added_of(d))
        },
        ButtplugServerMessage::DeviceRemoved { device_index } => {
            &&& post.roster() =~= pre.roster().remove(device_index)
            &&& post.device_event_senders@ == pre.device_event_senders@.filter(
                |k: u32| k != device_index,
            )
            &&& actions =~= seq![
                ClientLoopAction::EmitClientEvent(
                    ButtplugClientEvent::DeviceRemoved(pre.roster()[device_index]),
                ),
            ]
        },
        _ => true,
    }
}

impl ButtplugClientEventLoop {
    /// Wraps the events of `parse_connector_message` as loop actions, in
    /// order.
    #[verifier::loop_isolation(false)]
    fn wrap_client_events(events: Vec<ButtplugClientEvent>) -> (actions: Vec<ClientLoopAction>)
        ensures
            actions@ =~= events@.map_values(|e: ButtplugClientEvent| ClientLoopAction::EmitClientEvent(e)),
    {
        let ghost orig = events@;
        let mut events = events;
        let mut actions: Vec<ClientLoopAction> = Vec::new();
        while events.len() > 0
            invariant
                actions@.len() + events@.len() == orig.len(),
                events@ == orig.skip(actions@.len() as int),
                forall|j: int|
                    0 <= j < actions@.len() ==> #[trigger] actions@[j]
                        == ClientLoopAction::EmitClientEvent(orig[j]),
            decreases events@.len(),
        {
            let e = events.remove(0);
            actions.push(ClientLoopAction::EmitClientEvent(e));
        }
        actions
    }

    /// Handles one message from the client: forwards outbound requests,
    /// answers `RequestDeviceList` from the roster with one fresh handle
    /// per device, folds a handed device list into the roster, and turns a
    /// disconnect request into the connector disconnect plus loop exit.
    /// The second component says whether the loop keeps running.
    #[verifier::loop_isolation(false)]
    pub fn parse_client_message(&mut self, msg: ButtplugClientMessage) -> (r: (
        Vec<ClientLoopAction>,
        bool,
    ))
        requires
            old(self).wf(),
        ensures
            final(self).wf(),
            client_message_step_ok(*old(self), msg, *final(self), r.0@, r.1),
    {
        match msg {
            ButtplugClientMessage::Message(req) => {
                let mut actions: Vec<ClientLoopAction> = Vec::new();
                actions.push(ClientLoopAction::ForwardToConnector(req));
                (actions, true)
            },
            ButtplugClientMessage::Disconnect => {
                let mut actions: Vec<ClientLoopAction> = Vec::new();
                actions.push(ClientLoopAction::DisconnectConnector);
                (actions, false)
            },
            ButtplugClientMessage::RequestDeviceList => {
                let ghost prev_sinks = self.device_event_senders@;
                let mut handles: Vec<ButtplugClientDevice> = Vec::new();
                let mut i: usize = 0;
                while i < self.devices.len()
                    invariant
                        i <= self.devices@.len(),
                        self.devices@ == old(self).devices@,
                        self.device_event_senders@ =~= prev_sinks + self.devices@.take(
                            i as int,
                        ).map_values(|d: DeviceMessageInfo| sink_index_of(d)),
                        handles@ =~= self.devices@.take(i as int).map_values(
                            |d: DeviceMessageInfo| handle_of(d),
                        ),
                    decreases self.devices@.len() - i,
                {
                    let info = self.devices[i].duplicate();
                    let device = self.create_client_device(&info);
                    handles.push(device);
                    i = i + 1;
                    proof {
                        assert(self.devices@.take(i as int).drop_last() =~= self.devices@.take(
                            i - 1,
                        ));
                        assert(self.device_event_senders@ =~= prev_sinks + self.devices@.take(
                            i as int,
                        ).map_values(|d: DeviceMessageInfo| sink_index_of(d)));
                        assert(handles@ =~= self.devices@.take(i as int).map_values(
                            |d: DeviceMessageInfo| handle_of(d),
                        ));
                    }
                }
                proof {
                    assert(self.devices@.take(self.devices@.len() as int) =~= self.devices@);
                    assert(sinks_cover(self.roster(), self.device_event_senders@)) by {
                        assert forall|idx: u32| #[trigger]
                            self.roster().contains_key(idx) implies self
                            .device_event_senders@.contains(idx) by {
                            assert(prev_sinks.contains(idx));
                            let j = choose|j: int|
                                0 <= j < prev_sinks.len() && #[trigger] prev_sinks[j] == idx;
                            assert(self.device_event_senders@[j] == idx);
                        }
                    }
                }
                let mut actions: Vec<ClientLoopAction> = Vec::new();
                actions.push(ClientLoopAction::ReplyDeviceList(handles));
                (actions, true)
            },
            ButtplugClientMessage::HandleDeviceList(list) => {
                let events = self.handle_device_list_entries(&list.devices);
                let actions = Self::wrap_client_events(events);
                proof {
                    assert(actions@ =~= list.devices@.map_values(
                        |d: DeviceMessageInfo| emit_added_of(d),
                    ));
                }
                (actions, true)
            },
        }
    }

    /// One turn of the loop: reacts to whichever input fired, and says
    /// whether the loop keeps running. Closure of the client or connector
    /// channel, or a client disconnect request, stops the loop.
    pub fn handle_stream_event(&mut self, event: StreamReturn) -> (r: (
        Vec<ClientLoopAction>,
        bool,
    ))
        requires
            old(self).wf(),
            event matches StreamReturn::ConnectorMessage(msg) ==> connector_event_valid(
                old(self).roster(),
                msg,
            ),
        ensures
            final(self).wf(),
            event matches StreamReturn::ConnectorMessage(msg) ==> r.1 == true
                && connector_message_step_ok(*old(self), msg, *final(self), r.0@),
            event matches StreamReturn::ClientMessage(m) ==> client_message_step_ok(
                *old(self),
                m,
                *final(self),
                r.0@,
                r.1,
            ),
            event matches StreamReturn::DeviceMessage(req) ==> final(self).devices@
                == old(self).devices@ && final(self).device_event_senders@
                == old(self).device_event_senders@
                && r.0@ =~= seq![ClientLoopAction::ForwardToConnector(req)] && r.1 == true,
            event is Disconnect ==> final(self).devices@ == old(self).devices@
                && final(self).device_event_senders@ == old(self).device_event_senders@
                && r.0@ =~= Seq::empty() && r.1 == false,
    {
        match event {
            StreamReturn::ConnectorMessage(msg) => {
                let events = self.parse_connector_message(msg);
                let actions = Self::wrap_client_events(events);
                (actions, true)
            },
            StreamReturn::ClientMessage(m) => self.parse_client_message(m),
            StreamReturn::DeviceMessage(req) => {
                let mut actions: Vec<ClientLoopAction> = Vec::new();
                actions.push(ClientLoopAction::ForwardToConnector(req));
                (actions, true)
            },
            StreamReturn::Disconnect => {
                let actions: Vec<ClientLoopAction> = Vec::new();
                (actions, false)
            },
        }
    }
}

} // verus!
