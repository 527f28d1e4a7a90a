//! The display lifecycle manager: the two-state machine that owns the
//! optional display handle, brings the device up when absent, and drops the
//! handle on any timed-out or failed transaction so the next tick retries
//! bring-up. The timed hardware operations themselves happen outside this
//! crate; their outcomes come back as plain values.

use vstd::prelude::*;

verus! {

/// Deadline in milliseconds for a bring-up transaction: on the order of a
/// second, since a cold device may need a full handshake.
pub const BRING_UP_TIMEOUT_MS: u64 = 1000;

/// Deadline in milliseconds for a redraw transaction: well under the tick
/// interval, so a stalled bus can never cause a tick overrun.
pub const REDRAW_TIMEOUT_MS: u64 = 100;

/// How a timed hardware transaction ended: the operation completed and, on
/// a bring-up or a successful redraw, yields the handle back; or it did not
/// finish within its deadline; or it finished but the transport signalled
/// an error. The latter two are handled identically.
pub enum HardwareOutcome<H> {
    Success(H),
    Timeout,
    TransportError,
}

/// The handle the lifecycle stores after a tick that ended with `outcome`:
/// only a successful transaction leaves the device Ready.
pub open spec fn tick_transition<H>(outcome: HardwareOutcome<H>) -> Option<H> {
    match outcome {
        HardwareOutcome::Success(h) => Some(h),
        HardwareOutcome::Timeout => None,
        HardwareOutcome::TransportError => None,
    }
}

/// Exclusive owner of the optional, initialized display handle. Absent at
/// startup; present exactly between a successful bring-up and the next
/// failed or timed-out transaction.
pub struct DisplayLifecycle<H> {
    display: Option<H>,
}

impl<H> DisplayLifecycle<H> {
    /// The stored handle, if any.
    pub closed spec fn stored(&self) -> Option<H> {
        self.display
    }

    /// Ready means a handle is present and the next tick redraws; otherwise
    /// the next tick attempts bring-up.
    pub open spec fn is_ready(&self) -> bool {
        self.stored() is Some
    }

    /// Starts Uninitialized: no handle until the device is brought up.
    pub fn new() -> (r: DisplayLifecycle<H>)
        ensures
            !r.is_ready(),
    {
        DisplayLifecycle { display: None }
    }

    /// Runtime test matching `is_ready`.
    pub fn ready(&self) -> (r: bool)
        ensures
            r == self.is_ready(),
    {
        self.display.is_some()
    }

    /// Begins a tick: surrenders the handle to the caller, who must either
    /// redraw through it (when one was present) or attempt bring-up (when
    /// none was), and report the outcome through `complete`.
    pub fn begin_tick(&mut self) -> (h: Option<H>)
        ensures
            h == old(self).stored(),
            !final(self).is_ready(),
    {
        self.display.take()
    }

    /// Ends the tick with the transaction's outcome: success stores the
    /// handle it carries and the state is Ready; a timeout or a transport
    /// error leaves the state Uninitialized, to retry bring-up next tick.
    pub fn complete(&mut self, outcome: HardwareOutcome<H>)
        requires
            !old(self).is_ready(),
        ensures
            final(self).stored() == tick_transition(outcome),
            final(self).is_ready() == (outcome is Success),
    {
        match outcome {
            HardwareOutcome::Success(h) => {
                self.display = Some(h);
            },
            HardwareOutcome::Timeout => {},
            HardwareOutcome::TransportError => {},
        }
    }
}

/// The lifecycle law: from Uninitialized, a successful bring-up and only a
/// successful bring-up yields Ready; from Ready, a timed-out or failed
/// redraw discards the handle and returns the state to Uninitialized, and
/// a successful redraw keeps it Ready with the same handle.
pub proof fn lemma_lifecycle_transitions<H>(h: H, outcome: HardwareOutcome<H>)
    ensures
        tick_transition(HardwareOutcome::Success(h)) == Some(h),
        !(outcome is Success) ==> tick_transition(outcome) is None,
        (tick_transition(outcome) is Some) <==> (outcome is Success),
{
}

} // verus!
