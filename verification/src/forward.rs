//! The event forwarder: turns the worker's stream events into events for the
//! user interface, one at a time and in order, until the worker terminates.

use crate::text::{
    append_decimal, debug_quote, debug_text, decimal, decode_lossy, lossy_text,
};
use vstd::prelude::*;
use vstd::string::*;

verus! {

/// How a worker ended: its exit code, or the signal that ended it.
#[derive(Clone, Copy, Debug, PartialEq, Eq)]
pub struct TerminatedPayload {
    pub code: Option<i32>,
    pub signal: Option<i32>,
}

/// One event of a worker's output stream.
#[derive(Clone, Debug, PartialEq, Eq)]
pub enum StreamEvent {
    StandardOutputChunk(Vec<u8>),
    StandardErrorChunk(Vec<u8>),
    Terminated(TerminatedPayload),
    Other,
}

/// A named event for the user interface.
#[derive(Clone, Debug, PartialEq, Eq)]
pub struct UiEvent {
    pub channel: String,
    pub payload: String,
}

/// The mathematical content of a [`UiEvent`].
pub struct UiMessage {
    pub channel: Seq<char>,
    pub payload: Seq<char>,
}

impl View for UiEvent {
    type V = UiMessage;

    open spec fn view(&self) -> UiMessage {
        UiMessage { channel: self.channel@, payload: self.payload@ }
    }
}

/// The channel on which every event is published.
pub open spec fn channel_name() -> Seq<char> {
    "message"@
}

/// The pretty debug rendering of one optional field of a status.
pub open spec fn field_text(value: Option<i32>) -> Seq<char> {
    match value {
        Some(n) => "Some(\n        "@ + decimal(n as int) + ",\n    )"@,
        None => "None"@,
    }
}

/// The pretty debug rendering of a termination status.
pub open spec fn status_text(status: TerminatedPayload) -> Seq<char> {
    "TerminatedPayload {\n    code: "@ + field_text(status.code) + ",\n    signal: "@ + field_text(
        status.signal,
    ) + ",\n}"@
}

/// The payload for a chunk of standard output whose debug rendering is `quoted`.
pub open spec fn stdout_payload_text(quoted: Seq<char>) -> Seq<char> {
    "'"@ + quoted + "'"@
}

/// The payload that reports a termination status rendered as `status`.
pub open spec fn terminated_payload_text(status: Seq<char>) -> Seq<char> {
    "Terminated: "@ + status
}

/// The payload published for `event`, if any.
pub open spec fn payload_of(event: StreamEvent) -> Option<Seq<char>> {
    match event {
        StreamEvent::StandardOutputChunk(bytes) => Some(
            stdout_payload_text(debug_text(lossy_text(bytes@))),
        ),
        StreamEvent::StandardErrorChunk(bytes) => Some(debug_text(lossy_text(bytes@))),
        StreamEvent::Terminated(status) => Some(terminated_payload_text(status_text(status))),
        StreamEvent::Other => None,
    }
}

/// The messages published for one event: one, or none.
pub open spec fn emitted(event: StreamEvent) -> Seq<UiMessage> {
    match payload_of(event) {
        Some(payload) => seq![UiMessage { channel: channel_name(), payload }],
        None => Seq::empty(),
    }
}

/// The messages published by a fresh forwarder that is offered `events` in
/// order: those of each event up to and including the first termination.
pub open spec fn published(events: Seq<StreamEvent>) -> Seq<UiMessage>
    decreases events.len(),
{
    if events.len() == 0 {
        Seq::empty()
    } else if events[0] is Terminated {
        emitted(events[0])
    } else {
        emitted(events[0]) + published(events.subrange(1, events.len() as int))
    }
}

/// Whether `events` holds a termination.
pub open spec fn terminated_in(events: Seq<StreamEvent>) -> bool {
    exists|i: int| 0 <= i < events.len() && (#[trigger] events[i]) is Terminated
}

/// The views of a sequence of events.
pub open spec fn messages(events: Seq<UiEvent>) -> Seq<UiMessage> {
    events.map_values(|e: UiEvent| e@)
}

/// The payload for a chunk of standard output, from its debug rendering.
pub fn stdout_payload(quoted: &str) -> (payload: String)
    ensures
        payload@ == stdout_payload_text(quoted@),
{
    let mut payload = String::from_str("'");
    payload.append(quoted);
    payload.append("'");
    payload
}

/// The payload that reports a termination, from the rendering of its status.
pub fn terminated_payload(status: &str) -> (payload: String)
    ensures
        payload@ == terminated_payload_text(status@),
{
    let mut payload = String::from_str("Terminated: ");
    payload.append(status);
    payload
}

fn append_field(out: &mut String, value: Option<i32>)
    ensures
        final(out)@ == old(out)@ + field_text(value),
{
    match value {
        Some(n) => {
            out.append("Some(\n        ");
            append_decimal(out, n);
            out.append(",\n    )");
        },
        None => {
            out.append("None");
        },
    }
}

impl TerminatedPayload {
    /// The pretty debug rendering of the status.
    pub fn render(&self) -> (text: String)
        ensures
            text@ == status_text(*self),
    {
        let mut text = String::from_str("TerminatedPayload {\n    code: ");
        append_field(&mut text, self.code);
        text.append(",\n    signal: ");
        append_field(&mut text, self.signal);
        text.append(",\n}");
        text
    }
}

impl StreamEvent {
    /// The event to publish for this stream event, if any. Every chunk is
    /// decoded, whatever bytes it holds.
    pub fn to_ui_event(&self) -> (out: Option<UiEvent>)
        ensures
            out is Some <==> !(*self is Other),
            match out {
                Some(e) => emitted(*self) == seq![e@],
                None => emitted(*self) == Seq::<UiMessage>::empty(),
            },
    {
        let payload = match self {
            StreamEvent::StandardOutputChunk(bytes) => {
                let text = decode_lossy(bytes);
                let quoted = debug_quote(text.as_str());
                stdout_payload(quoted.as_str())
            },
            StreamEvent::StandardErrorChunk(bytes) => {
                let text = decode_lossy(bytes);
                debug_quote(text.as_str())
            },
            StreamEvent::Terminated(status) => {
                let text = status.render();
                terminated_payload(text.as_str())
            },
            StreamEvent::Other => {
                return None;
            },
        };
        Some(UiEvent { channel: String::from_str("message"), payload })
    }
}

/// What the forwarder asks of its driver after one event.
#[derive(Clone, Debug, PartialEq, Eq)]
pub struct Step {
    /// The event to publish, if any.
    pub publish: Option<UiEvent>,
    /// Whether to read the stream again.
    pub read_next: bool,
}

/// The forwarder's state: running until a termination has been processed or
/// the stream has closed.
#[derive(Clone, Debug, PartialEq, Eq)]
pub struct Forwarder {
    stopped: bool,
}

impl Forwarder {
    /// Whether the forwarder has stopped.
    pub closed spec fn stopped(&self) -> bool {
        self.stopped
    }

    /// A running forwarder.
    pub fn new() -> (forwarder: Forwarder)
        ensures
            !forwarder.stopped(),
    {
        Forwarder { stopped: false }
    }

    /// Whether the forwarder has stopped.
    pub fn is_stopped(&self) -> (stopped: bool)
        ensures
            stopped == self.stopped(),
    {
        self.stopped
    }

    /// Processes what the stream yielded: an event, or `None` where it has
    /// closed. A running forwarder publishes what the event emits, and stops
    /// on a termination or when the stream has closed; a stopped one
    /// publishes nothing. Only a forwarder that is still running asks for a
    /// further read.
    pub fn step(&mut self, next: Option<&StreamEvent>) -> (step: Step)
        ensures
            step.read_next == !final(self).stopped(),
            final(self).stopped() == (old(self).stopped() || match next {
                Some(event) => *event is Terminated,
                None => true,
            }),
            match next {
                Some(event) if !old(self).stopped() => {
                    &&& step.publish is Some <==> !(*event is Other)
                    &&& match step.publish {
                        Some(e) => emitted(*event) == seq![e@],
                        None => emitted(*event) == Seq::<UiMessage>::empty(),
                    }
                },
                _ => step.publish is None,
            },
    {
        if self.stopped {
            return Step { publish: None, read_next: false };
        }
        match next {
            Some(event) => {
                let publish = event.to_ui_event();
                let ends = match event {
                    StreamEvent::Terminated(_) => true,
                    _ => false,
                };
                self.stopped = ends;
                Step { publish, read_next: !ends }
            },
            None => {
                self.stopped = true;
                Step { publish: None, read_next: false }
            },
        }
    }
}

/// Runs a fresh forwarder over `events` and collects what it publishes.
pub fn forward_all(events: &Vec<StreamEvent>) -> (out: Vec<UiEvent>)
    ensures
        messages(out@) == published(events@),
{
    let mut forwarder = Forwarder::new();
    let mut out: Vec<UiEvent> = Vec::new();
    let mut i: usize = 0;
    assert(events@.subrange(0, events@.len() as int) =~= events@);
    assert(messages(out@) =~= Seq::<UiMessage>::empty());
    while i < events.len() && !forwarder.is_stopped()
        invariant
            i <= events.len(),
            !forwarder.stopped() ==> published(events@) == messages(out@) + published(
                events@.subrange(i as int, events@.len() as int),
            ),
            forwarder.stopped() ==> published(events@) == messages(out@),
        decreases events.len() - i,
    {
        let ghost rest = events@.subrange(i as int, events@.len() as int);
        let ghost before = messages(out@);
        assert(rest[0] == events@[i as int]);
        assert(rest.subrange(1, rest.len() as int) =~= events@.subrange(
            i as int + 1,
            events@.len() as int,
        ));
        let step = forwarder.step(Some(&events[i]));
        match step.publish {
            Some(e) => {
                out.push(e);
                assert(messages(out@) =~= before + emitted(events@[i as int]));
            },
            None => {
                assert(messages(out@) =~= before + emitted(events@[i as int]));
            },
        }
        i = i + 1;
    }
    proof {
        if !forwarder.stopped() {
            assert(events@.subrange(i as int, events@.len() as int) =~= Seq::<StreamEvent>::empty());
            assert(messages(out@) + Seq::<UiMessage>::empty() =~= messages(out@));
        }
    }
    out
}

/// Offering one more event to a forwarder adds what that event emits to the
/// end of what was published, and adds nothing once a termination has been
/// offered: events are published in the order of the stream, and nothing
/// follows a termination.
pub proof fn law_one_more_event(events: Seq<StreamEvent>, next: StreamEvent)
    ensures
        terminated_in(events) ==> published(events.push(next)) == published(events),
        !terminated_in(events) ==> published(events.push(next)) == published(events) + emitted(
            next,
        ),
    decreases events.len(),
{
    let longer = events.push(next);
    if events.len() == 0 {
        assert(longer.subrange(1, longer.len() as int) =~= Seq::<StreamEvent>::empty());
        assert(published(Seq::<StreamEvent>::empty()) =~= Seq::<UiMessage>::empty());
        assert(published(longer) =~= emitted(next));
        assert(published(events) + emitted(next) =~= emitted(next));
    } else {
        let tail = events.subrange(1, events.len() as int);
        assert(longer[0] == events[0]);
        assert(longer.subrange(1, longer.len() as int) =~= tail.push(next));
        if events[0] is Terminated {
            assert(terminated_in(events));
        } else {
            law_one_more_event(tail, next);
            if terminated_in(events) {
                let i = choose|i: int| 0 <= i < events.len() && (#[trigger] events[i]) is Terminated;
                assert(tail[i - 1] is Terminated);
                assert(terminated_in(tail));
            } else {
                if terminated_in(tail) {
                    let j = choose|j: int| 0 <= j < tail.len() && (#[trigger] tail[j]) is Terminated;
                    assert(events[j + 1] is Terminated);
                }
                assert(published(longer) =~= published(events) + emitted(next));
            }
        }
    }
}

/// Each event emits exactly one message, but for `Other`, which emits none.
pub proof fn law_one_message_per_event(event: StreamEvent)
    ensures
        emitted(event).len() == if event is Other { 0nat } else { 1nat },
        forall|i: int| 0 <= i < emitted(event).len() ==> (#[trigger] emitted(event)[i]).channel
            == channel_name(),
{
}

/// The number of events in `events` that emit a message: all but `Other`.
pub open spec fn count_emitting(events: Seq<StreamEvent>) -> nat
    decreases events.len(),
{
    if events.len() == 0 {
        0
    } else {
        count_emitting(events.drop_last()) + if events.last() is Other {
            0nat
        } else {
            1nat
        }
    }
}

/// Where no event follows a termination, so that the forwarder reads them
/// all, it publishes exactly one message for each event that is not `Other`.
pub proof fn law_published_count(events: Seq<StreamEvent>)
    requires
        forall|i: int| 0 <= i < events.len() - 1 ==> !((#[trigger] events[i]) is Terminated),
    ensures
        published(events).len() == count_emitting(events),
    decreases events.len(),
{
    if events.len() > 0 {
        let shorter = events.drop_last();
        law_published_count(shorter);
        assert(events =~= shorter.push(events.last()));
        law_one_more_event(shorter, events.last());
        law_one_message_per_event(events.last());
    }
}

/// What follows a termination in the stream changes nothing of what is
/// published.
pub proof fn law_nothing_after_termination(events: Seq<StreamEvent>, rest: Seq<StreamEvent>)
    requires
        terminated_in(events),
    ensures
        published(events + rest) == published(events),
    decreases rest.len(),
{
    if rest.len() == 0 {
        assert(events + rest =~= events);
    } else {
        let shorter = rest.drop_last();
        law_nothing_after_termination(events, shorter);
        assert(events + rest =~= (events + shorter).push(rest.last()));
        let i = choose|i: int| 0 <= i < events.len() && (#[trigger] events[i]) is Terminated;
        assert((events + shorter)[i] is Terminated);
        law_one_more_event(events + shorter, rest.last());
    }
}

} // verus!
