//! The input-capture task: it suspends until a rising edge on its timer
//! channel, then reads the value the hardware latched at the edge and
//! reports it. Edges are not queued: a second edge before the task resumes
//! overwrites the first, and only the later value is observable.

use vstd::prelude::*;

verus! {

/// The capture channel as the task sees it: the hardware's capture register
/// plus the pending-edge flag the wakeup bridge raises.
pub struct CaptureChannel {
    /// Which timer channel this is.
    pub channel: u8,
    /// The counter value latched at the most recent rising edge.
    pub latched: u32,
    /// Whether an edge fired since the task last resumed.
    pub edge_pending: bool,
}

/// A report of one observed rising edge: the channel and the counter value
/// latched at the edge.
#[derive(Clone, Copy, Debug, PartialEq, Eq, Structural)]
pub struct CaptureEvent {
    pub channel: u8,
    pub value: u32,
}

/// The channel after the hardware captures an edge: the counter value at the
/// edge replaces whatever was latched before, queuing nothing.
pub open spec fn edge_latched(state: CaptureChannel, counter_at_edge: u32) -> CaptureChannel {
    CaptureChannel { channel: state.channel, latched: counter_at_edge, edge_pending: true }
}

/// The channel after the task consumes the pending edge, and what it reports:
/// the value latched at the edge, not a later counter read.
pub open spec fn capture_taken(state: CaptureChannel) -> (CaptureChannel, CaptureEvent) {
    (
        CaptureChannel { channel: state.channel, latched: state.latched, edge_pending: false },
        CaptureEvent { channel: state.channel, value: state.latched },
    )
}

impl CaptureChannel {
    /// A channel on which no edge has fired yet.
    pub fn new(channel: u8) -> (c: Self)
        ensures
            c.channel == channel,
            !c.edge_pending,
    {
        CaptureChannel { channel, latched: 0, edge_pending: false }
    }

    /// The interrupt's half: a rising edge fired and the hardware latched the
    /// free-running counter's value at that instant. A still-pending earlier
    /// edge is overwritten.
    pub fn record_edge(&mut self, counter_at_edge: u32)
        ensures
            *final(self) == edge_latched(*old(self), counter_at_edge),
    {
        self.latched = counter_at_edge;
        self.edge_pending = true;
    }

    /// The task's half, run when resumed by the edge it awaited: reads the
    /// capture register and consumes the pending edge.
    pub fn take_capture(&mut self) -> (report: CaptureEvent)
        requires
            old(self).edge_pending,
        ensures
            *final(self) == capture_taken(*old(self)).0,
            report == capture_taken(*old(self)).1,
            report.value == old(self).latched,
            report.channel == old(self).channel,
            !final(self).edge_pending,
    {
        self.edge_pending = false;
        CaptureEvent { channel: self.channel, value: self.latched }
    }
}

/// Law: edges spaced farther apart than the task's processing are reported
/// one for one: an edge, once consumed, yields exactly the value latched at
/// that edge, and a second edge after the first resumption yields the second
/// value — two edges, two reports.
pub proof fn lemma_one_report_per_spaced_edge(start: CaptureChannel, first: u32, second: u32)
    ensures
        capture_taken(edge_latched(start, first)).1.value == first,
        capture_taken(edge_latched(capture_taken(edge_latched(start, first)).0, second)).1.value
            == second,
{
}

/// Law: of two edges that both arrive before the task resumes, only the
/// later value is observable, and it is consumed as a single report: after
/// the one resumption no edge is pending.
pub proof fn lemma_overwrite_keeps_later_edge(start: CaptureChannel, first: u32, second: u32)
    ensures
        capture_taken(edge_latched(edge_latched(start, first), second)).1.value == second,
        !capture_taken(edge_latched(edge_latched(start, first), second)).0.edge_pending,
{
}

} // verus!
