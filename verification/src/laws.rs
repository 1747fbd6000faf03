//! Properties of the coordination spine that span several steps: how the
//! device manager's state evolves over a whole sequence of loop inputs, and
//! how the client-side roster tracks the server-side registry.
//!
//! `DeviceManagerEventLoop::handle_event` pins each loop input's effect to
//! `manager_step`; the lemmas here speak about iterated `manager_step`, so
//! they hold of every run of the loop.

use vstd::prelude::*;

use crate::device_manager::{
    manager_event_valid, manager_step, parse_message_ok, DeviceCommunicationEvent, DeviceEvent,
    ManagerModel, ServerDispatch,
};
use crate::errors::ButtplugError;
use crate::messages::{
    ButtplugClientRequest, ButtplugDeviceCommandMessageUnion, DeviceMessageInfo,
};
use crate::registry::DeviceRecord;

verus! {

/// The manager state after a whole sequence of loop inputs, processed in
/// order.
pub open spec fn manager_run(m: ManagerModel, events: Seq<DeviceEvent>) -> ManagerModel
    decreases events.len(),
{
    if events.len() == 0 {
        m
    } else {
        manager_step(manager_run(m, events.drop_last()), events.last())
    }
}

/// Every input of the sequence is valid in the state it meets: the index
/// counter is not exhausted when a device is found, and a connection
/// reinjection names an allocated, never-inserted index.
pub open spec fn manager_run_valid(m: ManagerModel, events: Seq<DeviceEvent>) -> bool
    decreases events.len(),
{
    if events.len() == 0 {
        true
    } else {
        &&& manager_run_valid(m, events.drop_last())
        &&& manager_event_valid(manager_run(m, events.drop_last()), events.last())
    }
}

/// The index the device found by input `k` is assigned: the counter as it
/// stands when that input is processed.
pub open spec fn assigned_index(m: ManagerModel, events: Seq<DeviceEvent>, k: int) -> u32 {
    manager_run(m, events.take(k)).next_index
}

/// Whether a loop input announces a found device.
pub open spec fn is_device_found(e: DeviceEvent) -> bool {
    e matches DeviceEvent::DeviceCommunicationEvent(Some(c)) && c is DeviceFound
}

/// Whether a loop input removes the given index from the registry.
pub open spec fn removes_index(e: DeviceEvent, device_index: u32) -> bool {
    e matches DeviceEvent::DeviceEvent(Some((idx, dev_ev))) && idx == device_index
        && dev_ev is Removed
}

proof fn lemma_run_valid_prefix(m: ManagerModel, events: Seq<DeviceEvent>, t: int)
    requires
        manager_run_valid(m, events),
        0 <= t <= events.len(),
    ensures
        manager_run_valid(m, events.take(t)),
    decreases events.len() - t,
{
    if t < events.len() {
        assert(events.take(events.len() as int) =~= events);
        assert(events.take(t + 1).drop_last() =~= events.take(t));
        lemma_run_valid_prefix(m, events.drop_last(), t);
        assert(events.drop_last().take(t) =~= events.take(t));
    } else {
        assert(events.take(t) =~= events);
    }
}

proof fn lemma_next_index_monotonic(m: ManagerModel, events: Seq<DeviceEvent>, k: int, l: int)
    requires
        manager_run_valid(m, events),
        0 <= k <= l <= events.len(),
    ensures
        manager_run(m, events.take(k)).next_index <= manager_run(m, events.take(l)).next_index,
    decreases l - k,
{
    if k < l {
        lemma_next_index_monotonic(m, events, k, l - 1);
        lemma_run_valid_prefix(m, events, l);
        assert(events.take(l).drop_last() =~= events.take(l - 1));
        assert(manager_run_valid(m, events.take(l)));
    }
}

/// Indices are allocated strictly increasing: over any valid run, a device
/// found later is assigned a strictly larger index than a device found
/// earlier, so no index is ever repeated within one manager lifetime.
pub proof fn lemma_device_indices_strictly_increase(
    m: ManagerModel,
    events: Seq<DeviceEvent>,
    i: int,
    j: int,
)
    requires
        manager_run_valid(m, events),
        0 <= i < j < events.len(),
        is_device_found(events[i]),
        is_device_found(events[j]),
    ensures
        assigned_index(m, events, i) < assigned_index(m, events, j),
{
    lemma_run_valid_prefix(m, events, i + 1);
    assert(events.take(i + 1).drop_last() =~= events.take(i));
    assert(events.take(i + 1).last() == events[i]);
    assert(manager_run(m, events.take(i + 1)).next_index == assigned_index(m, events, i) + 1);
    lemma_next_index_monotonic(m, events, i + 1, j);
}

/// A device the registry holds stays in it through every valid input that
/// does not remove its index, and stays published unchanged.
pub proof fn lemma_device_stays_until_removed(
    m: ManagerModel,
    events: Seq<DeviceEvent>,
    device_index: u32,
)
    requires
        manager_run_valid(m, events),
        m.staged.contains_key(device_index),
        m.published.contains_key(device_index),
        m.published[device_index] == m.staged[device_index],
        forall|k: int| 0 <= k < events.len() ==> !removes_index(#[trigger] events[k], device_index),
    ensures
        manager_run(m, events).staged.contains_key(device_index),
        manager_run(m, events).published.contains_key(device_index),
        manager_run(m, events).published[device_index] == m.published[device_index],
        manager_run(m, events).staged[device_index] == m.staged[device_index],
    decreases events.len(),
{
    if events.len() > 0 {
        let e0 = events.drop_last();
        assert(forall|k: int| 0 <= k < e0.len() ==> e0[k] == events[k]);
        lemma_device_stays_until_removed(m, e0, device_index);
    }
}

/// After a device was added (its index published) and until its removal,
/// a command addressed to it is routed to the device: the dispatch outcome
/// is exactly the hand-off to the device the registry holds. Together with
/// the dispatch contract (a command for an unpublished index fails with
/// the device error naming it), a command addressed to an added device
/// fails with `DeviceError` only once its `DeviceRemoved` is out.
pub proof fn lemma_added_device_commands_succeed(
    m: ManagerModel,
    events: Seq<DeviceEvent>,
    manager_count: u32,
    command: ButtplugDeviceCommandMessageUnion,
    r: Result<ServerDispatch, ButtplugError>,
)
    requires
        manager_run_valid(m, events),
        m.staged.contains_key(command.spec_device_index()),
        m.published.contains_key(command.spec_device_index()),
        m.published[command.spec_device_index()] == m.staged[command.spec_device_index()],
        forall|k: int|
            0 <= k < events.len() ==> !removes_index(
                #[trigger] events[k],
                command.spec_device_index(),
            ),
        parse_message_ok(
            manager_count,
            manager_run(m, events).published,
            ButtplugClientRequest::DeviceCommand(command),
            r,
        ),
    ensures
        r == Ok::<ServerDispatch, ButtplugError>(
            ServerDispatch::ToDevice {
                device_index: command.spec_device_index(),
                command,
                record: m.published[command.spec_device_index()],
            },
        ),
{
    lemma_device_stays_until_removed(m, events, command.spec_device_index());
}

/// Whether a spine input is the removal of the given index.
pub open spec fn is_removal_of(input: SpineInput, device_index: u32) -> bool {
    input matches SpineInput::Loop(e) && removes_index(e, device_index)
}

/// Whether a spine input is the identification resolution of the given
/// index.
pub open spec fn is_resolve_of(input: SpineInput, device_index: u32) -> bool {
    input matches SpineInput::Resolve { device_index: idx, .. } && idx == device_index
}

/// Which loop inputs emit an outward message carrying the given index: the
/// removal of that index (emitting `DeviceRemoved`) is the only one the
/// loop emits itself; the identification resolution for that index emits
/// its `DeviceAdded`. Both are covered by the run input alphabet below.
pub open spec fn carries_index(input: SpineInput, device_index: u32) -> bool {
    match input {
        SpineInput::Loop(e) => removes_index(e, device_index),
        SpineInput::Resolve { device_index: idx, matched } => idx == device_index
            && matched is Some,
    }
}

/// One input to the spine as a whole: a manager loop input, or the
/// completion of one identification task (which emits `DeviceAdded` and
/// reinjects the connection when a protocol matched).
pub enum SpineInput {
    Loop(DeviceEvent),
    Resolve { device_index: u32, matched: Option<DeviceRecord> },
}

/// After `DeviceRemoved(i)` is emitted, no later outward message carries
/// index `i`: each connected device reports exactly one removal, and its
/// identification resolved before the removal could arrive, so neither a
/// second `DeviceRemoved(i)` nor a late `DeviceAdded(i)` exists.
pub proof fn lemma_no_outward_after_removed(
    trace: Seq<SpineInput>,
    device_index: u32,
    p: int,
    q: int,
)
    requires
        0 <= p < q < trace.len(),
        is_removal_of(trace[p], device_index),
        // one removal per device
        forall|a: int, b: int|
            (0 <= a < trace.len() && 0 <= b < trace.len() && is_removal_of(
                #[trigger] trace[a],
                device_index,
            ) && is_removal_of(#[trigger] trace[b], device_index)) ==> a == b,
        // a device is identified before its events (the removal among them)
        // can arrive
        forall|a: int, b: int|
            (0 <= a < trace.len() && 0 <= b < trace.len() && is_resolve_of(
                #[trigger] trace[a],
                device_index,
            ) && is_removal_of(#[trigger] trace[b], device_index)) ==> a < b,
    ensures
        !carries_index(trace[q], device_index),
{
}

/// The index set a device-list snapshot names.
pub open spec fn info_index_set(infos: Seq<DeviceMessageInfo>) -> Set<u32> {
    Set::new(
        |k: u32|
            exists|i: int| 0 <= i < infos.len() && (#[trigger] infos[i]).device_index == k,
    )
}

/// A `DeviceList` snapshot that matches the registry names exactly the
/// registry's index set: after quiescence, `RequestDeviceList` answers
/// with the same indices the server holds.
pub proof fn lemma_device_list_names_registry(
    devices: Map<u32, DeviceRecord>,
    infos: Seq<DeviceMessageInfo>,
)
    requires
        crate::device_manager::infos_match_registry(devices, infos),
    ensures
        info_index_set(infos) =~= devices.dom(),
{
    assert forall|k: u32| info_index_set(infos).contains(k) implies devices.dom().contains(k) by {
        let i = choose|i: int| 0 <= i < infos.len() && (#[trigger] infos[i]).device_index == k;
        assert(devices.get(infos[i].device_index) is Some);
    }
}


/// The registry over a whole spine run. A manager loop input moves it as
/// `manager_step` says; a resolved identification stands for the pair it
/// causes (the `DeviceAdded` emitted outward, then the reinjected
/// connection the loop processes), so it inserts the device.
pub open spec fn spine_run(m: ManagerModel, trace: Seq<SpineInput>) -> ManagerModel
    decreases trace.len(),
{
    if trace.len() == 0 {
        m
    } else {
        let prev = spine_run(m, trace.drop_last());
        match trace.last() {
            SpineInput::Loop(e) => manager_step(prev, e),
            SpineInput::Resolve { device_index, matched } => match matched {
                Some(record) => manager_step(
                    prev,
                    DeviceEvent::DeviceCommunicationEvent(
                        Some(DeviceCommunicationEvent::DeviceConnected { device_index, record }),
                    ),
                ),
                None => prev,
            },
        }
    }
}

/// The client roster over the same run, fed by what the spine emits
/// outward: the `DeviceAdded` of each successful identification inserts
/// the snapshot the client builds from it (as the connector-message step
/// of the client loop does), and each removal removes its index.
pub open spec fn client_roster_run(
    roster: Map<u32, DeviceMessageInfo>,
    trace: Seq<SpineInput>,
) -> Map<u32, DeviceMessageInfo>
    decreases trace.len(),
{
    if trace.len() == 0 {
        roster
    } else {
        let prev = client_roster_run(roster, trace.drop_last());
        match trace.last() {
            SpineInput::Resolve { device_index, matched } => match matched {
                Some(record) => prev.insert(
                    device_index,
                    DeviceMessageInfo {
                        device_index,
                        device_name: record.device_name,
                        device_messages: record.device_messages,
                    },
                ),
                None => prev,
            },
            SpineInput::Loop(e) => {
                if e matches DeviceEvent::DeviceEvent(Some((idx, dev_ev))) && dev_ev is Removed {
                    prev.remove(spine_removed_index(e))
                } else {
                    prev
                }
            },
        }
    }
}

/// The index a removal input carries.
pub open spec fn spine_removed_index(e: DeviceEvent) -> u32 {
    match e {
        DeviceEvent::DeviceEvent(Some((idx, _))) => idx,
        _ => 0,
    }
}

/// A spine trace carries connections only inside resolutions: the loop's
/// own reinjections are part of the `Resolve` inputs.
pub open spec fn spine_trace_valid(trace: Seq<SpineInput>) -> bool {
    forall|k: int|
        0 <= k < trace.len() ==> !((#[trigger] trace[k]) matches SpineInput::Loop(
            DeviceEvent::DeviceCommunicationEvent(
                Some(DeviceCommunicationEvent::DeviceConnected { .. }),
            ),
        ))
}

/// Client and server rosters converge: over any spine run, the client's
/// roster names exactly the indices the server's published registry
/// holds. With `RequestDeviceList` answered from the published registry
/// (its list names exactly the registry's indices) and from the client's
/// roster (one handle per roster entry), both sides answer with the same
/// index set after quiescence.
pub proof fn lemma_roster_converges_over_run(
    m: ManagerModel,
    roster: Map<u32, DeviceMessageInfo>,
    trace: Seq<SpineInput>,
)
    requires
        spine_trace_valid(trace),
        roster.dom() =~= m.published.dom(),
        m.staged == m.published,
    ensures
        client_roster_run(roster, trace).dom() =~= spine_run(m, trace).published.dom(),
        spine_run(m, trace).staged == spine_run(m, trace).published,
    decreases trace.len(),
{
    if trace.len() > 0 {
        let t0 = trace.drop_last();
        assert(forall|k: int| 0 <= k < t0.len() ==> t0[k] == trace[k]);
        lemma_roster_converges_over_run(m, roster, t0);
    }
}

} // verus!
