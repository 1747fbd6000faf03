//! The scanning lifecycle of one communication manager: commanding a scan
//! is idempotent and asynchronous, and the manager emits `ScanningFinished`
//! exactly once per scan window, when it reaches its intrinsic endpoint.

use vstd::prelude::*;

use crate::messages::ButtplugServerMessage;

verus! {

/// The scanning state one communication manager keeps.
#[derive(Clone, Copy, Debug, PartialEq, Eq, Structural)]
pub struct ScanningState {
    pub scanning: bool,
}

/// Commanding a scan: scanning afterwards, whether or not one was running.
pub open spec fn spec_start_scanning(s: ScanningState) -> ScanningState {
    ScanningState { scanning: true }
}

/// Commanding a stop: not scanning afterwards.
pub open spec fn spec_stop_scanning(s: ScanningState) -> ScanningState {
    ScanningState { scanning: false }
}

/// Reaching the scan window's intrinsic endpoint: the scan ends, and
/// `ScanningFinished` goes out exactly when a scan was running.
pub open spec fn spec_finish_scanning(s: ScanningState) -> (
    ScanningState,
    Option<ButtplugServerMessage>,
) {
    if s.scanning {
        (ScanningState { scanning: false }, Some(ButtplugServerMessage::ScanningFinished))
    } else {
        (ScanningState { scanning: false }, None)
    }
}

impl ScanningState {
    /// A manager that is not scanning.
    pub fn new() -> (r: ScanningState)
        ensures
            !r.scanning,
    {
        ScanningState { scanning: false }
    }

    /// Commands a scan. Returns when scanning has been commanded, not when
    /// it completes; commanding twice is the same as commanding once.
    pub fn start_scanning(&mut self)
        ensures
            *final(self) == spec_start_scanning(*old(self)),
    {
        self.scanning = true;
    }

    /// Commands the scan to stop; idempotent.
    pub fn stop_scanning(&mut self)
        ensures
            *final(self) == spec_stop_scanning(*old(self)),
    {
        self.scanning = false;
    }

    /// The scan window reaches its intrinsic endpoint: emits
    /// `ScanningFinished` outward exactly when a scan was running.
    pub fn finish_scanning(&mut self) -> (emitted: Option<ButtplugServerMessage>)
        ensures
            (*final(self), emitted) == spec_finish_scanning(*old(self)),
    {
        if self.scanning {
            self.scanning = false;
            Some(ButtplugServerMessage::ScanningFinished)
        } else {
            None
        }
    }
}

/// Commanding a scan twice produces at most one `ScanningFinished` per
/// manager: however many times `start_scanning` ran, the first finish
/// emits the message and any further finish emits nothing.
pub proof fn lemma_start_scanning_idempotent(s: ScanningState)
    ensures
        spec_start_scanning(spec_start_scanning(s)) == spec_start_scanning(s),
        spec_finish_scanning(spec_start_scanning(spec_start_scanning(s))).1 == Some(
            ButtplugServerMessage::ScanningFinished,
        ),
        spec_finish_scanning(spec_finish_scanning(spec_start_scanning(spec_start_scanning(s))).0).1
            is None,
{
}

} // verus!
