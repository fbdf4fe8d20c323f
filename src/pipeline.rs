use crate::error::Error;
use vstd::prelude::*;

verus! {

/// Where a pipeline run stands.
#[derive(Debug, Clone, Copy, PartialEq, Eq, Structural)]
pub enum Phase {
    /// Packets are read and routed to their stream's decoder.
    Running,
    /// The demuxer reached its end; decoders are flushed and drained in turn.
    Draining,
    /// The run is over, cleanly or on an error.
    Closed,
}

/// What the driver must do next with the demuxer and the decoders.
#[derive(Debug, Clone, Copy, PartialEq, Eq, Structural)]
pub enum Action {
    /// Read one packet from the demuxer.
    ReadPacket,
    /// Hand the packet just read to the decoder of this stream index.
    Send(usize),
    /// Ask the decoder of this stream index for one frame.
    Receive(usize),
    /// Signal end of input to the decoder of this stream index.
    Flush(usize),
    /// Every decoder has been drained: the run ended cleanly.
    Finish,
    /// An error ended the run.
    Abort,
}

/// What came of the last action.
#[derive(Debug, Clone, Copy, PartialEq, Eq, Structural)]
pub enum Event {
    /// The demuxer returned a packet for this stream index.
    Packet(usize),
    /// The demuxer reached a clean end of stream.
    EndOfStream,
    /// The packet was sent to, or the flush accepted by, the decoder.
    Accepted,
    /// The decoder returned a frame, which went on to the consumer.
    Frame,
    /// The decoder has no frame available now.
    NoFrame,
    /// The demuxer or the decoder returned an error.
    Failed,
}

/// The first stream index at or after `from` that has a decoder.
pub open spec fn first_present_from(present: Seq<bool>, from: int) -> Option<int>
    decreases present.len() - from,
{
    if from < 0 || from >= present.len() {
        None
    } else if present[from] {
        Some(from)
    } else {
        first_present_from(present, from + 1)
    }
}

/// The action that flushes the first decoder at or after `from`, or ends the
/// run when there is none.
pub open spec fn flush_from(present: Seq<bool>, from: int) -> (Phase, Action) {
    match first_present_from(present, from) {
        Some(j) => (Phase::Draining, Action::Flush(j as usize)),
        None => (Phase::Closed, Action::Finish),
    }
}

/// The phase and action that follow `event`, given the phase, the action that
/// produced the event, and which stream indices have a decoder.
pub open spec fn transition(phase: Phase, last: Action, present: Seq<bool>, event: Event) -> (
    Phase,
    Action,
) {
    match (phase, last, event) {
        (_, _, Event::Failed) => (Phase::Closed, Action::Abort),
        (Phase::Running, Action::ReadPacket, Event::Packet(k)) => {
            if k < present.len() && present[k as int] {
                (Phase::Running, Action::Send(k))
            } else {
                (Phase::Running, Action::ReadPacket)
            }
        },
        (Phase::Running, Action::ReadPacket, Event::EndOfStream) => flush_from(present, 0),
        (Phase::Running, Action::Send(k), Event::Accepted) => (Phase::Running, Action::Receive(k)),
        (Phase::Draining, Action::Flush(k), Event::Accepted) => (
            Phase::Draining,
            Action::Receive(k),
        ),
        (Phase::Running, Action::Receive(k), Event::Frame) => (Phase::Running, Action::Receive(k)),
        (Phase::Draining, Action::Receive(k), Event::Frame) => (
            Phase::Draining,
            Action::Receive(k),
        ),
        (Phase::Running, Action::Receive(_), Event::NoFrame) => (Phase::Running, Action::ReadPacket),
        (Phase::Draining, Action::Receive(k), Event::NoFrame) => flush_from(present, k + 1),
        _ => (Phase::Closed, Action::Abort),
    }
}

/// The decisions of a pipeline run: which decoder a packet goes to, when to
/// drain a decoder, and when the run is over. The driver performs each action
/// and reports what came of it.
pub struct PipelineState {
    phase: Phase,
    last: Action,
    present: Vec<bool>,
}

impl PipelineState {
    pub closed spec fn phase_spec(&self) -> Phase {
        self.phase
    }

    /// The action the driver is to perform now.
    pub closed spec fn action_spec(&self) -> Action {
        self.last
    }

    /// For each stream index, whether a decoder stands there.
    pub closed spec fn present_spec(&self) -> Seq<bool> {
        self.present@
    }

    /// Starts a run over streams where `present[i]` tells whether stream `i`
    /// has a decoder; the first action reads a packet.
    pub fn new(present: Vec<bool>) -> (r: PipelineState)
        ensures
            r.phase_spec() == Phase::Running,
            r.action_spec() == Action::ReadPacket,
            r.present_spec() == present@,
    {
        PipelineState { phase: Phase::Running, last: Action::ReadPacket, present }
    }

    pub fn phase(&self) -> (r: Phase)
        ensures
            r == self.phase_spec(),
    {
        self.phase
    }

    pub fn action(&self) -> (r: Action)
        ensures
            r == self.action_spec(),
    {
        self.last
    }

    pub fn stream_count(&self) -> (r: usize)
        ensures
            r == self.present_spec().len(),
    {
        self.present.len()
    }

    fn first_present(&self, from: usize) -> (r: Option<usize>)
        ensures
            r matches Some(j) ==> first_present_from(self.present@, from as int) == Some(j as int),
            r is None ==> first_present_from(self.present@, from as int) is None,
    {
        let mut i = from;
        while i < self.present.len()
            invariant
                from <= i,
                first_present_from(self.present@, from as int) == first_present_from(
                    self.present@,
                    i as int,
                ),
            decreases self.present.len() - i,
        {
            if self.present[i] {
                return Some(i);
            }
            i = i + 1;
        }
        None
    }

    fn flush_from(&self, from: usize) -> (r: (Phase, Action))
        ensures
            r == flush_from(self.present@, from as int),
    {
        match self.first_present(from) {
            Some(j) => (Phase::Draining, Action::Flush(j)),
            None => (Phase::Closed, Action::Finish),
        }
    }

    /// Takes what came of the current action and returns the next one.
    pub fn step(&mut self, event: Event) -> (r: Action)
        ensures
            (final(self).phase_spec(), r) == transition(
                old(self).phase_spec(),
                old(self).action_spec(),
                old(self).present_spec(),
                event,
            ),
            final(self).action_spec() == r,
            final(self).present_spec() == old(self).present_spec(),
    {
        let (phase, action) = match (self.phase, self.last, event) {
            (_, _, Event::Failed) => (Phase::Closed, Action::Abort),
            (Phase::Running, Action::ReadPacket, Event::Packet(k)) => {
                if k < self.present.len() && self.present[k] {
                    (Phase::Running, Action::Send(k))
                } else {
                    (Phase::Running, Action::ReadPacket)
                }
            },
            (Phase::Running, Action::ReadPacket, Event::EndOfStream) => self.flush_from(0),
            (Phase::Running, Action::Send(k), Event::Accepted) => (
                Phase::Running,
                Action::Receive(k),
            ),
            (Phase::Draining, Action::Flush(k), Event::Accepted) => (
                Phase::Draining,
                Action::Receive(k),
            ),
            (Phase::Running, Action::Receive(k), Event::Frame) => (
                Phase::Running,
                Action::Receive(k),
            ),
            (Phase::Draining, Action::Receive(k), Event::Frame) => (
                Phase::Draining,
                Action::Receive(k),
            ),
            (Phase::Running, Action::Receive(_), Event::NoFrame) => (
                Phase::Running,
                Action::ReadPacket,
            ),
            (Phase::Draining, Action::Receive(k), Event::NoFrame) => {
                if k < usize::MAX {
                    self.flush_from(k + 1)
                } else {
                    let n = self.present.len();
                    assert(first_present_from(self.present@, k + 1) is None) by {
                        assert(k + 1 > n);
                    }
                    (Phase::Closed, Action::Finish)
                }
            },
            _ => (Phase::Closed, Action::Abort),
        };
        self.phase = phase;
        self.last = action;
        action
    }
}

/// Whether a failure to build a stream's decoder leaves that stream
/// undecoded instead of ending the run: only an unsupported codec does.
pub fn leaves_stream_undecoded(e: &Error) -> (r: bool)
    ensures
        r <==> *e is InvalidCodec,
{
    match e {
        Error::InvalidCodec => true,
        _ => false,
    }
}

/// What the search for the next decoder finds: the first index at or after
/// `from` that has one, with none in between, or none at all up to the end.
pub proof fn lemma_first_present_from(present: Seq<bool>, from: int)
    requires
        0 <= from,
    ensures
        first_present_from(present, from) matches Some(j) ==> from <= j < present.len()
            && present[j] && forall|i: int| from <= i < j ==> !#[trigger] present[i],
        first_present_from(present, from) is None ==> forall|i: int|
            from <= i < present.len() ==> !#[trigger] present[i],
    decreases present.len() - from,
{
    if from < present.len() && !present[from] {
        lemma_first_present_from(present, from + 1);
    }
}

/// A packet read for stream `k` goes to the decoder at index `k` and to no
/// other; when no decoder stands at `k` the packet is dropped and the run
/// goes on reading.
pub proof fn lemma_routing(present: Seq<bool>, k: usize)
    ensures
        transition(Phase::Running, Action::ReadPacket, present, Event::Packet(k)) == if k
            < present.len() && present[k as int] {
            (Phase::Running, Action::Send(k))
        } else {
            (Phase::Running, Action::ReadPacket)
        },
        transition(Phase::Running, Action::ReadPacket, present, Event::Packet(k)).1 matches Action::Send(
            j,
        ) ==> j == k,
{
}

/// At end of stream, and each time a decoder has been drained, the next
/// decoder in index order is flushed; the run finishes only when no decoder
/// is left after the one just drained.
pub proof fn lemma_drain_in_order(present: Seq<bool>, k: usize)
    requires
        present.len() <= usize::MAX,
    ensures
        ({
            let (phase, action) = transition(
                Phase::Draining,
                Action::Receive(k),
                present,
                Event::NoFrame,
            );
            &&& action matches Action::Flush(j) ==> phase == Phase::Draining && k < j
                < present.len() && present[j as int] && forall|i: int|
                k < i < j ==> !#[trigger] present[i]
            &&& action == Action::Finish ==> phase == Phase::Closed && forall|i: int|
                k < i < present.len() ==> !#[trigger] present[i]
            &&& action is Flush || action == Action::Finish
        }),
        ({
            let (phase, action) = transition(
                Phase::Running,
                Action::ReadPacket,
                present,
                Event::EndOfStream,
            );
            &&& action matches Action::Flush(j) ==> phase == Phase::Draining && j
                < present.len() && present[j as int] && forall|i: int|
                0 <= i < j ==> !#[trigger] present[i]
            &&& action == Action::Finish ==> phase == Phase::Closed && forall|i: int|
                0 <= i < present.len() ==> !#[trigger] present[i]
            &&& action is Flush || action == Action::Finish
        }),
{
    lemma_first_present_from(present, k + 1);
    lemma_first_present_from(present, 0);
}

/// A closed run stays closed: no event brings it back to reading packets or
/// driving decoders.
pub proof fn lemma_closed_stays_closed(last: Action, present: Seq<bool>, event: Event)
    ensures
        transition(Phase::Closed, last, present, event) == (Phase::Closed, Action::Abort),
{
}

/// The phase and action after a run of events, starting from a new state.
pub open spec fn run_events(present: Seq<bool>, events: Seq<Event>) -> (Phase, Action)
    decreases events.len(),
{
    if events.len() == 0 {
        (Phase::Running, Action::ReadPacket)
    } else {
        let (phase, last) = run_events(present, events.drop_last());
        transition(phase, last, present, events.last())
    }
}

/// The stream indices of the `Send` actions over a run of events, in order.
pub open spec fn sent_streams(present: Seq<bool>, events: Seq<Event>) -> Seq<usize>
    decreases events.len(),
{
    if events.len() == 0 {
        seq![]
    } else {
        let before = sent_streams(present, events.drop_last());
        match run_events(present, events).1 {
            Action::Send(k) => before.push(k),
            _ => before,
        }
    }
}

/// The stream indices of the packets read, in order, that have a decoder.
pub open spec fn routable_packets(present: Seq<bool>, events: Seq<Event>) -> Seq<usize>
    decreases events.len(),
{
    if events.len() == 0 {
        seq![]
    } else {
        let before = routable_packets(present, events.drop_last());
        match events.last() {
            Event::Packet(k) => if k < present.len() && present[k as int] {
                before.push(k)
            } else {
                before
            },
            _ => before,
        }
    }
}

/// A run that has ended, cleanly or not, is closed.
pub proof fn lemma_ended_is_closed(present: Seq<bool>, events: Seq<Event>)
    ensures
        run_events(present, events).1 == Action::Abort || run_events(present, events).1
            == Action::Finish ==> run_events(present, events).0 == Phase::Closed,
    decreases events.len(),
{
    if events.len() > 0 {
        lemma_ended_is_closed(present, events.drop_last());
    }
}

/// Over any run of events that has not been aborted, the decoders are handed
/// exactly the packets read for streams that have one, each once and in the
/// order the demuxer produced them; every other packet is dropped.
pub proof fn lemma_run_routing(present: Seq<bool>, events: Seq<Event>)
    requires
        run_events(present, events).1 != Action::Abort,
    ensures
        sent_streams(present, events) == routable_packets(present, events),
    decreases events.len(),
{
    if events.len() > 0 {
        let before = events.drop_last();
        lemma_ended_is_closed(present, before);
        lemma_run_routing(present, before);
    }
}

/// While draining, no packet is sent and the run never returns to reading:
/// a flushed decoder is only asked for frames until the run moves on.
pub proof fn lemma_no_send_after_flush(last: Action, present: Seq<bool>, event: Event)
    ensures
        transition(Phase::Draining, last, present, event).0 != Phase::Running,
        !(transition(Phase::Draining, last, present, event).1 is Send),
        transition(Phase::Draining, last, present, event).1 != Action::ReadPacket,
{
}

} // verus!
