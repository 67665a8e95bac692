use vstd::prelude::*;

verus! {

/// Whether a trace event opens or closes an activity.
#[derive(Clone, Copy, Debug, PartialEq, Eq, Structural)]
pub enum EventKind {
    Start,
    End,
}

/// One node-to-node activity mark, kept for visualisation only.
pub struct TraceEvent {
    pub kind: EventKind,
    pub from: String,
    pub to: String,
    pub label: String,
    pub correlation_id: Option<String>,
}

/// Write-only, best-effort sink of trace events. Recording never fails and
/// never touches the state that decides a run.
pub struct EventRecorder {
    events: Vec<TraceEvent>,
}

impl View for EventRecorder {
    type V = Seq<TraceEvent>;

    closed spec fn view(&self) -> Seq<TraceEvent> {
        self.events@
    }
}

impl EventRecorder {
    pub fn new() -> (r: EventRecorder)
        ensures
            r@.len() == 0,
    {
        EventRecorder { events: Vec::new() }
    }

    /// Marks the start of an activity from node `from` to node `to`.
    pub fn event_start(
        &mut self,
        from: String,
        to: String,
        label: String,
        correlation_id: Option<String>,
    )
        ensures
            final(self)@ == old(self)@.push(
                TraceEvent { kind: EventKind::Start, from, to, label, correlation_id },
            ),
    {
        self.events.push(TraceEvent { kind: EventKind::Start, from, to, label, correlation_id });
    }

    /// Marks the end of an activity from node `from` to node `to`.
    pub fn event_end(
        &mut self,
        from: String,
        to: String,
        label: String,
        correlation_id: Option<String>,
    )
        ensures
            final(self)@ == old(self)@.push(
                TraceEvent { kind: EventKind::End, from, to, label, correlation_id },
            ),
    {
        self.events.push(TraceEvent { kind: EventKind::End, from, to, label, correlation_id });
    }

    /// The number of recorded events.
    pub fn len(&self) -> (r: usize)
        ensures
            r == self@.len(),
    {
        self.events.len()
    }

    /// Hands every recorded event out, in order, and leaves the recorder empty.
    pub fn drain(&mut self) -> (r: Vec<TraceEvent>)
        ensures
            r@ == old(self)@,
            final(self)@.len() == 0,
    {
        let mut out: Vec<TraceEvent> = Vec::new();
        std::mem::swap(&mut out, &mut self.events);
        out
    }
}

} // verus!
