use vstd::prelude::*;
use crate::actions::{
    has_control, resolved, submitted, ActionError, ActionRequest, ControlValue,
    OptimisticActionController,
};
use crate::event_stream::{accepts_messages, ReconnectingEventStream};
use crate::log_buffer::{appended, BoundedLogBuffer};

verus! {

/// Snapshot of the device: whether its control loop runs, and its process id.
#[derive(Clone, Copy, Debug, PartialEq, Eq, Structural)]
pub struct SystemStatus {
    pub running: bool,
    pub pid: Option<i32>,
}

impl Default for SystemStatus {
    /// Not running, no process.
    fn default() -> (r: SystemStatus)
        ensures
            r == (SystemStatus { running: false, pid: None }),
    {
        SystemStatus { running: false, pid: None }
    }
}

/// The revision that follows `r`; it always differs from `r`.
pub open spec fn next_revision(r: u64) -> u64 {
    if r == u64::MAX {
        0
    } else {
        (r + 1) as u64
    }
}

/// What the rendering layer reads: status, log and controls, with a revision
/// number that changes on every write so that readers can tell when to redraw.
pub struct UiStateStore {
    status: SystemStatus,
    logs: BoundedLogBuffer,
    controls: OptimisticActionController,
    revision: u64,
}

impl UiStateStore {
    pub closed spec fn status_spec(&self) -> SystemStatus {
        self.status
    }

    pub closed spec fn logs(&self) -> BoundedLogBuffer {
        self.logs
    }

    pub closed spec fn controls(&self) -> OptimisticActionController {
        self.controls
    }

    pub closed spec fn rev(&self) -> u64 {
        self.revision
    }

    pub open spec fn wf(&self) -> bool {
        self.logs().wf() && self.controls().wf()
    }

    /// An empty store whose log keeps at most `log_capacity` lines.
    pub fn new(log_capacity: usize) -> (r: Self)
        ensures
            r.wf(),
            r.status_spec() == (SystemStatus { running: false, pid: None }),
            r.logs()@ == Seq::<String>::empty(),
            r.logs().cap() == log_capacity,
            r.controls()@ == Seq::<ControlValue>::empty(),
            r.controls().next() == 0,
            r.rev() == 0,
    {
        UiStateStore {
            status: SystemStatus { running: false, pid: None },
            logs: BoundedLogBuffer::new(log_capacity),
            controls: OptimisticActionController::new(),
            revision: 0,
        }
    }

    fn touch(&mut self)
        ensures
            final(self).rev() == next_revision(old(self).rev()),
            final(self).status_spec() == old(self).status_spec(),
            final(self).logs() == old(self).logs(),
            final(self).controls() == old(self).controls(),
    {
        self.revision = if self.revision == u64::MAX {
            0
        } else {
            self.revision + 1
        };
    }

    /// Current revision number.
    pub fn revision(&self) -> (r: u64)
        ensures
            r == self.rev(),
    {
        self.revision
    }

    /// Current device status.
    pub fn status(&self) -> (r: SystemStatus)
        ensures
            r == self.status_spec(),
    {
        self.status
    }

    /// Stores the latest status reported by the device.
    pub fn set_status(&mut self, status: SystemStatus)
        requires
            old(self).wf(),
        ensures
            final(self).wf(),
            final(self).status_spec() == status,
            final(self).logs() == old(self).logs(),
            final(self).controls() == old(self).controls(),
            final(self).rev() == next_revision(old(self).rev()),
    {
        self.status = status;
        self.touch();
    }

    /// Hands a line received on `stream` to the log; it is kept only while
    /// the stream is open. Returns whether it was appended.
    pub fn deliver_log_line(&mut self, stream: &ReconnectingEventStream, line: String) -> (r: bool)
        requires
            old(self).wf(),
        ensures
            final(self).wf(),
            r == accepts_messages(stream.conn()),
            final(self).logs().cap() == old(self).logs().cap(),
            final(self).logs()@ == if r {
                appended(old(self).logs()@, line, old(self).logs().cap())
            } else {
                old(self).logs()@
            },
            final(self).status_spec() == old(self).status_spec(),
            final(self).controls() == old(self).controls(),
            final(self).rev() == if r { next_revision(old(self).rev()) } else { old(self).rev() },
    {
        let r = stream.on_message(&mut self.logs, line);
        if r {
            self.touch();
        }
        r
    }

    /// The log lines, oldest first.
    pub fn log_snapshot(&self) -> (r: Vec<String>)
        ensures
            r@ == self.logs()@,
    {
        self.logs.snapshot()
    }

    /// Adds a control with its confirmed initial value.
    pub fn register_control(&mut self, name: String, initial: String) -> (r: Result<(), ActionError>)
        requires
            old(self).wf(),
        ensures
            final(self).wf(),
            final(self).controls().next() == old(self).controls().next(),
            r is Err <==> has_control(old(self).controls()@, name@),
            r is Err ==> r == Err::<(), ActionError>(ActionError::DuplicateControl)
                && final(self).controls()@ == old(self).controls()@ && final(self).rev() == old(self).rev(),
            r is Ok ==> final(self).controls()@ == old(self).controls()@.push(
                ControlValue { name, confirmed: initial, pending: None },
            ) && final(self).rev() == next_revision(old(self).rev()),
            final(self).status_spec() == old(self).status_spec(),
            final(self).logs() == old(self).logs(),
    {
        let r = self.controls.register(name, initial);
        if r.is_ok() {
            self.touch();
        }
        r
    }

    /// Optimistically shows `value` for the control `name` and returns the
    /// confirming request to send.
    pub fn submit_action(&mut self, name: String, value: String) -> (r: Result<ActionRequest, ActionError>)
        requires
            old(self).wf(),
        ensures
            final(self).wf(),
            !has_control(old(self).controls()@, name@) <==> r == Err::<ActionRequest, ActionError>(
                ActionError::UnknownControl,
            ),
            has_control(old(self).controls()@, name@) && old(self).controls().next() == u64::MAX
                <==> r == Err::<ActionRequest, ActionError>(ActionError::TicketsExhausted),
            r is Ok <==> has_control(old(self).controls()@, name@) && old(self).controls().next() < u64::MAX,
            r is Err ==> final(self).controls()@ == old(self).controls()@
                && final(self).controls().next() == old(self).controls().next()
                && final(self).rev() == old(self).rev(),
            r is Ok ==> {
                &&& r->Ok_0.ticket == old(self).controls().next()
                &&& r->Ok_0.name@ == name@
                &&& r->Ok_0.value == value
                &&& final(self).controls().next() == old(self).controls().next() + 1
                &&& final(self).controls()@ == submitted(
                    old(self).controls()@,
                    name@,
                    value,
                    old(self).controls().next(),
                )
                &&& final(self).rev() == next_revision(old(self).rev())
            },
            final(self).status_spec() == old(self).status_spec(),
            final(self).logs() == old(self).logs(),
    {
        let r = self.controls.submit(name, value);
        if r.is_ok() {
            self.touch();
        }
        r
    }

    /// Applies the outcome of the confirming request `ticket`; the outcome of
    /// a superseded request is dropped. Returns whether it was applied.
    pub fn resolve_action(&mut self, ticket: u64, accepted: bool) -> (r: bool)
        requires
            old(self).wf(),
        ensures
            final(self).wf(),
            final(self).controls().next() == old(self).controls().next(),
            final(self).controls()@ == resolved(old(self).controls()@, ticket, accepted),
            r == crate::actions::is_outstanding(old(self).controls()@, ticket),
            final(self).rev() == if r { next_revision(old(self).rev()) } else { old(self).rev() },
            final(self).status_spec() == old(self).status_spec(),
            final(self).logs() == old(self).logs(),
    {
        let r = self.controls.resolve(ticket, accepted);
        if r {
            self.touch();
        }
        r
    }

    /// The value shown for the control `name`: pending if any, else confirmed.
    pub fn displayed_value(&self, name: &String) -> (r: Option<String>)
        requires
            self.wf(),
        ensures
            r is None <==> !has_control(self.controls()@, name@),
            r is Some ==> forall|i: int|
                0 <= i < self.controls()@.len() && (#[trigger] self.controls()@[i]).name@ == name@
                    ==> r == Some(crate::actions::displayed(self.controls()@[i])),
    {
        self.controls.displayed_value(name)
    }

    /// The last confirmed value of the control `name`.
    pub fn confirmed_value(&self, name: &String) -> (r: Option<String>)
        requires
            self.wf(),
        ensures
            r is None <==> !has_control(self.controls()@, name@),
            r is Some ==> forall|i: int|
                0 <= i < self.controls()@.len() && (#[trigger] self.controls()@[i]).name@ == name@
                    ==> r == Some(self.controls()@[i].confirmed),
    {
        self.controls.confirmed_value(name)
    }
}

} // verus!
