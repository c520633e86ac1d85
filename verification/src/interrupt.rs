//! Interrupt dispatch: the per-event protocol of a result-ready handler.
//!
//! One handler serves one physical interrupt line. Per event, in fixed
//! order: enter the critical section over the shared resources, perform one
//! result-read transaction, toggle the status indicator as a heartbeat,
//! clear the device-internal interrupt-cause flag, clear the controller-side
//! line-pending flag, and leave the critical section. Both flags are cleared
//! on every invocation whether or not the read succeeded — otherwise the
//! line stays asserted and the handler re-enters immediately.
//!
//! The read transaction is a capability of the surrounding program; its
//! outcome enters as the `read` argument and the handler's contract pins the
//! result for every possible outcome.

use vstd::prelude::*;

use crate::TransportError;
use crate::indicator::cycled;
use crate::lock::SharedIndicator;
use crate::mode::SensorHandle;

verus! {

/// The controller-side state of one interrupt line: whether the line-level
/// pending flag is set.
#[derive(Clone, Copy, Debug, PartialEq, Eq, Structural)]
pub struct InterruptLine {
    pub pending: bool,
}

impl InterruptLine {
    /// A line with no pending event.
    pub fn new() -> (l: Self)
        ensures
            !l.pending,
    {
        InterruptLine { pending: false }
    }

    /// Clear the controller-side line-pending flag.
    pub fn clear_pending(&mut self)
        ensures
            *final(self) == (InterruptLine { pending: false }),
    {
        self.pending = false;
    }
}

/// One handler invocation for a line wired to a single device: read the
/// result, toggle the heartbeat, clear both flags, release the lock.
///
/// The handler may run only when nobody is inside the shared resources'
/// critical section — on a single core the ceiling discipline guarantees
/// exactly that — and it ends with the section released, both flags cleared
/// (whatever the read outcome was), and the handle's mode untouched.
pub fn handle_interrupt(
    handle: &mut SensorHandle,
    line: &mut InterruptLine,
    shared: &mut SharedIndicator,
    prio: u8,
    read: Result<u16, TransportError>,
) -> (r: Result<u16, TransportError>)
    requires
        old(shared).is_free(),
        prio <= old(shared).ceiling(),
    ensures
        r == read,
        !final(handle).device_flag,
        !final(line).pending,
        *final(handle) == (SensorHandle { device_flag: false, ..*old(handle) }),
        final(shared).is_free(),
        final(shared).wf(),
        final(shared).ceiling() == old(shared).ceiling(),
        final(shared).value_now() == cycled(old(shared).value_now()),
        final(shared).written() == old(shared).written().push(cycled(old(shared).value_now())),
{
    let granted = shared.try_enter(prio);
    // On a single core the handler only preempts outside any conflicting
    // critical section, so entry is never deferred here.
    assert(granted);
    let result = read;
    shared.toggle(prio);
    handle.clear_interrupts();
    line.clear_pending();
    shared.exit(prio);
    result
}

/// One handler invocation for a line shared by several devices: every device
/// whose internal interrupt-cause flag is set gets exactly one result read;
/// all device flags and the line-pending flag are cleared regardless of the
/// read outcomes, and no mode changes.
///
/// `reads[i]` is the outcome the bus capability produced for device `i`
/// (consulted only for flagged devices). Entry `i` of the result is the
/// value read from device `i`, or `None` where the device was not flagged or
/// its read failed.
pub fn handle_shared_interrupt(
    handles: &mut Vec<SensorHandle>,
    line: &mut InterruptLine,
    shared: &mut SharedIndicator,
    prio: u8,
    reads: &Vec<Result<u16, TransportError>>,
) -> (out: Vec<Option<u16>>)
    requires
        old(handles).len() == reads.len(),
        old(shared).is_free(),
        prio <= old(shared).ceiling(),
    ensures
        out.len() == old(handles).len(),
        final(handles).len() == old(handles).len(),
        forall|i: int| 0 <= i < old(handles).len() ==> final(handles)@[i] == (SensorHandle {
            device_flag: false,
            ..old(handles)@[i]
        }),
        forall|i: int| 0 <= i < old(handles).len() ==> out@[i] == (
        if old(handles)@[i].device_flag && reads@[i] is Ok {
            Some(reads@[i]->Ok_0)
        } else {
            None::<u16>
        }),
        !final(line).pending,
        final(shared).is_free(),
        final(shared).wf(),
        final(shared).ceiling() == old(shared).ceiling(),
        final(shared).value_now() == cycled(old(shared).value_now()),
        final(shared).written() == old(shared).written().push(cycled(old(shared).value_now())),
{
    let granted = shared.try_enter(prio);
    assert(granted);
    let n = handles.len();
    let mut out: Vec<Option<u16>> = Vec::new();
    let mut i: usize = 0;
    while i < n
        invariant
            i <= n,
            n == handles.len(),
            n == reads.len(),
            out.len() == i,
            forall|j: int| 0 <= j < i ==> handles@[j] == (SensorHandle {
                device_flag: false,
                ..old(handles)@[j]
            }),
            forall|j: int| i <= j < n ==> handles@[j] == old(handles)@[j],
            forall|j: int| 0 <= j < i ==> out@[j] == (
            if old(handles)@[j].device_flag && reads@[j] is Ok {
                Some(reads@[j]->Ok_0)
            } else {
                None::<u16>
            }),
        decreases n - i,
    {
        let mut h = handles[i];
        if h.device_flag {
            match reads[i] {
                Ok(v) => out.push(Some(v)),
                Err(_) => out.push(None),
            }
        } else {
            out.push(None);
        }
        h.clear_interrupts();
        handles[i] = h;
        i += 1;
    }
    shared.toggle(prio);
    line.clear_pending();
    shared.exit(prio);
    out
}

} // verus!
