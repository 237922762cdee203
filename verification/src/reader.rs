//! The reader worker's logic.
//!
//! The reader worker repeatedly decodes one message from the connection and
//! routes it into the classified queue of its kind.  After routing a message
//! it polls the reader shutdown flag and, if the flag is set, terminates
//! successfully.  End-of-stream also terminates it successfully; a decode
//! error is fatal and aborts it.
//!
//! The decoding itself is the codec's business and happens outside this
//! crate.  What the worker observes of it is a [`ReadEvent`]; the decision
//! the worker then takes, and its effect on the queues, is [`reader_step`].
//! A whole session of the loop over a sequence of observed events is
//! modelled by [`reader_run`] and executed by [`run_reader`], against which
//! the ordering and shutdown guarantees below are proved.

use vstd::prelude::*;

use crate::msg::{Message, Notification, Request, Response};
use crate::queues::{ClassifiedQueues, QueuesView};

verus! {

/// What one turn of the reader loop observes from the codec.
#[derive(Debug, Clone, PartialEq, Eq)]
pub enum ReadEvent {
    /// The codec produced the next message.
    Decoded(Message),
    /// The peer closed the connection: an orderly end, not an error.
    EndOfStream,
    /// The codec failed on malformed or truncated input.
    DecodeFailed,
}

/// The reader worker's state after one turn of its loop.
#[derive(Debug, Clone, Copy, PartialEq, Eq, Structural)]
pub enum ReaderStatus {
    /// Keep looping: decode the next message.
    Running,
    /// Terminated successfully (end of stream, or shutdown requested).
    Finished,
    /// Aborted on a fatal decode error.
    Failed,
}

/// The effect of routing one decoded message: it is appended at the tail of
/// the queue of its kind, and the other two queues are untouched.
pub open spec fn route_one(q: QueuesView, m: Message) -> QueuesView {
    match m {
        Message::Request(r) => QueuesView {
            requests: q.requests.push(r),
            notifications: q.notifications,
            responses: q.responses,
        },
        Message::Notification(n) => QueuesView {
            requests: q.requests,
            notifications: q.notifications.push(n),
            responses: q.responses,
        },
        Message::Response(p) => QueuesView {
            requests: q.requests,
            notifications: q.notifications,
            responses: q.responses.push(p),
        },
    }
}

/// The effect of routing a sequence of messages, in order.
pub open spec fn route_all(q: QueuesView, ms: Seq<Message>) -> QueuesView
    decreases ms.len(),
{
    if ms.len() == 0 {
        q
    } else {
        route_all(route_one(q, ms[0]), ms.drop_first())
    }
}

/// The request payloads of a message sequence, in order.
pub open spec fn requests_of(ms: Seq<Message>) -> Seq<Request>
    decreases ms.len(),
{
    if ms.len() == 0 {
        Seq::empty()
    } else {
        match ms[0] {
            Message::Request(r) => seq![r] + requests_of(ms.drop_first()),
            _ => requests_of(ms.drop_first()),
        }
    }
}

/// The notification payloads of a message sequence, in order.
pub open spec fn notifications_of(ms: Seq<Message>) -> Seq<Notification>
    decreases ms.len(),
{
    if ms.len() == 0 {
        Seq::empty()
    } else {
        match ms[0] {
            Message::Notification(n) => seq![n] + notifications_of(ms.drop_first()),
            _ => notifications_of(ms.drop_first()),
        }
    }
}

/// The response payloads of a message sequence, in order.
pub open spec fn responses_of(ms: Seq<Message>) -> Seq<Response>
    decreases ms.len(),
{
    if ms.len() == 0 {
        Seq::empty()
    } else {
        match ms[0] {
            Message::Response(p) => seq![p] + responses_of(ms.drop_first()),
            _ => responses_of(ms.drop_first()),
        }
    }
}

/// The messages among a sequence of read events, in order.
pub open spec fn messages_of(events: Seq<ReadEvent>) -> Seq<Message>
    decreases events.len(),
{
    if events.len() == 0 {
        Seq::empty()
    } else {
        match events[0] {
            ReadEvent::Decoded(m) => seq![m] + messages_of(events.drop_first()),
            _ => messages_of(events.drop_first()),
        }
    }
}

/// How one turn of the loop changes the queues: a decoded message is routed,
/// the other events leave the queues alone.
pub open spec fn reader_step_queues(q: QueuesView, event: ReadEvent) -> QueuesView {
    match event {
        ReadEvent::Decoded(m) => route_one(q, m),
        _ => q,
    }
}

/// The decision one turn of the loop takes, given the event and the value of
/// the shutdown flag observed at this turn's poll point.
pub open spec fn reader_step_status(event: ReadEvent, exit_requested: bool) -> ReaderStatus {
    match event {
        ReadEvent::Decoded(_) => if exit_requested {
            ReaderStatus::Finished
        } else {
            ReaderStatus::Running
        },
        ReadEvent::EndOfStream => ReaderStatus::Finished,
        ReadEvent::DecodeFailed => ReaderStatus::Failed,
    }
}

/// One turn of the reader loop: route the event's message, if any, then
/// decide whether to keep looping.  `exit_requested` is the value of the
/// reader shutdown flag observed at this turn's poll point; a set flag stops
/// the worker only after the message in flight has been routed, so nothing
/// already decoded is lost.
pub fn reader_step(
    queues: &mut ClassifiedQueues,
    event: ReadEvent,
    exit_requested: bool,
) -> (status: ReaderStatus)
    ensures
        final(queues)@ == reader_step_queues(old(queues)@, event),
        status == reader_step_status(event, exit_requested),
{
    match event {
        ReadEvent::Decoded(m) => {
            match m {
                Message::Request(r) => queues.push_request(r),
                Message::Notification(n) => queues.push_notification(n),
                Message::Response(p) => queues.push_response(p),
            }
            if exit_requested {
                ReaderStatus::Finished
            } else {
                ReaderStatus::Running
            }
        }
        ReadEvent::EndOfStream => ReaderStatus::Finished,
        ReadEvent::DecodeFailed => ReaderStatus::Failed,
    }
}

/// The outcome of a whole reader session: the queues it leaves behind, how
/// many events it consumed, and the state it stopped in (`Running` means the
/// event sequence ran out while the worker would still continue).
#[verifier::ext_equal]
pub struct ReaderRun {
    pub queues: QueuesView,
    pub consumed: int,
    pub status: ReaderStatus,
}

/// A whole session of the reader loop over a sequence of events, where
/// `flags[k]` is the value of the shutdown flag observed at turn `k`'s poll
/// point.  The session stops at the first turn whose decision is not
/// `Running`.
pub open spec fn reader_run(q: QueuesView, events: Seq<ReadEvent>, flags: Seq<bool>) -> ReaderRun
    decreases events.len(),
{
    if events.len() == 0 {
        ReaderRun { queues: q, consumed: 0, status: ReaderStatus::Running }
    } else {
        let status0 = reader_step_status(events[0], flags[0]);
        let q1 = reader_step_queues(q, events[0]);
        if status0 is Running {
            let rest = reader_run(q1, events.drop_first(), flags.drop_first());
            ReaderRun { queues: rest.queues, consumed: 1 + rest.consumed, status: rest.status }
        } else {
            ReaderRun { queues: q1, consumed: 1, status: status0 }
        }
    }
}

/// A session result, shifted by turns already taken before it.
spec fn delayed(rest: ReaderRun, taken: int) -> ReaderRun {
    ReaderRun { queues: rest.queues, consumed: taken + rest.consumed, status: rest.status }
}

/// Runs the reader loop over a sequence of observed events, with `flags[k]`
/// the shutdown-flag value observed at turn `k`.  Returns how many events
/// were consumed and the state the worker stopped in.
#[verifier::loop_isolation(false)]
pub fn run_reader(
    queues: &mut ClassifiedQueues,
    events: Vec<ReadEvent>,
    flags: &Vec<bool>,
) -> (out: (usize, ReaderStatus))
    requires
        flags@.len() == events@.len(),
    ensures
        ({
            let run = reader_run(old(queues)@, events@, flags@);
            &&& final(queues)@ == run.queues
            &&& out.0 as int == run.consumed
            &&& out.1 == run.status
        }),
{
    let ghost q0 = queues@;
    let ghost ev0 = events@;
    let ghost fl0 = flags@;
    let mut events = events;
    let n = events.len();
    let mut i: usize = 0;
    proof {
        assert(ev0.skip(0) =~= ev0);
        assert(fl0.skip(0) =~= fl0);
    }
    while events.len() > 0
        invariant
            i <= n,
            n == ev0.len(),
            ev0.len() == fl0.len(),
            fl0 == flags@,
            events@ == ev0.skip(i as int),
            reader_run(q0, ev0, fl0) == delayed(
                reader_run(queues@, ev0.skip(i as int), fl0.skip(i as int)),
                i as int,
            ),
        decreases events@.len(),
    {
        let ghost q_at = queues@;
        let event = events.remove(0);
        let exit_requested = flags[i];
        proof {
            assert(ev0.skip(i as int)[0] == ev0[i as int]);
            assert(fl0.skip(i as int)[0] == fl0[i as int]);
            assert(ev0.skip(i as int).drop_first() =~= ev0.skip(i as int + 1));
            assert(fl0.skip(i as int).drop_first() =~= fl0.skip(i as int + 1));
        }
        let status = reader_step(&mut *queues, event, exit_requested);
        proof {
            let s = ev0.skip(i as int);
            let f = fl0.skip(i as int);
            let status0 = reader_step_status(ev0[i as int], fl0[i as int]);
            if status0 is Running {
                assert(reader_run(q_at, s, f) == delayed(
                    reader_run(queues@, ev0.skip(i as int + 1), fl0.skip(i as int + 1)),
                    1,
                ));
            } else {
                assert(reader_run(q_at, s, f) == (ReaderRun {
                    queues: queues@,
                    consumed: 1,
                    status: status0,
                }));
            }
        }
        match status {
            ReaderStatus::Running => {
                i = i + 1;
            }
            _ => {
                return (i + 1, status);
            }
        }
    }
    (i, ReaderStatus::Running)
}

/// A message of one kind is never appended to a queue of another kind:
/// routing touches exactly the queue of the message's kind, and only by
/// appending the message at its tail.
pub proof fn lemma_kind_isolation(q: QueuesView, m: Message)
    ensures
        route_one(q, m).requests == (match m {
            Message::Request(r) => q.requests.push(r),
            _ => q.requests,
        }),
        route_one(q, m).notifications == (match m {
            Message::Notification(n) => q.notifications.push(n),
            _ => q.notifications,
        }),
        route_one(q, m).responses == (match m {
            Message::Response(p) => q.responses.push(p),
            _ => q.responses,
        }),
{
}

/// FIFO per kind: routing a sequence of messages appends, to each queue, the
/// payloads of that kind in exactly the order they appeared in the sequence.
pub proof fn lemma_fifo_per_kind(q: QueuesView, ms: Seq<Message>)
    ensures
        route_all(q, ms).requests == q.requests + requests_of(ms),
        route_all(q, ms).notifications == q.notifications + notifications_of(ms),
        route_all(q, ms).responses == q.responses + responses_of(ms),
    decreases ms.len(),
{
    if ms.len() == 0 {
        assert(q.requests + requests_of(ms) =~= q.requests);
        assert(q.notifications + notifications_of(ms) =~= q.notifications);
        assert(q.responses + responses_of(ms) =~= q.responses);
    } else {
        let q1 = route_one(q, ms[0]);
        lemma_fifo_per_kind(q1, ms.drop_first());
        match ms[0] {
            Message::Request(r) => {
                assert(q.requests.push(r) + requests_of(ms.drop_first()) =~= q.requests
                    + requests_of(ms));
            }
            Message::Notification(n) => {
                assert(q.notifications.push(n) + notifications_of(ms.drop_first())
                    =~= q.notifications + notifications_of(ms));
            }
            Message::Response(p) => {
                assert(q.responses.push(p) + responses_of(ms.drop_first()) =~= q.responses
                    + responses_of(ms));
            }
        }
    }
}

/// A peer that only sends well-formed messages, with shutdown never
/// requested, has every message routed: the session consumes the whole
/// stream, keeps running, and the queues hold exactly the routed messages.
pub proof fn lemma_reader_drains_stream(q: QueuesView, events: Seq<ReadEvent>, flags: Seq<bool>)
    requires
        events.len() == flags.len(),
        forall|j: int| 0 <= j < events.len() ==> events[j] is Decoded,
        forall|j: int| 0 <= j < flags.len() ==> !flags[j],
    ensures
        ({
            let run = reader_run(q, events, flags);
            &&& run.consumed == events.len()
            &&& run.status is Running
            &&& run.queues == route_all(q, messages_of(events))
        }),
    decreases events.len(),
{
    if events.len() == 0 {
    } else {
        match events[0] {
            ReadEvent::Decoded(m) => {
                let q1 = route_one(q, m);
                lemma_reader_drains_stream(q1, events.drop_first(), flags.drop_first());
                let tail = messages_of(events.drop_first());
                assert((seq![m] + tail)[0] == m);
                assert((seq![m] + tail).drop_first() =~= tail);
            }
            _ => {
                assert(false);
            }
        }
    }
}

/// Cooperative shutdown is prompt: if the shutdown flag is observed set at
/// poll point `i` of a well-formed stream, the session terminates
/// successfully after consuming at most `i + 1` events, and every message it
/// consumed — including the one in flight at the final turn — has been
/// routed; none is lost.
pub proof fn lemma_reader_shutdown(
    q: QueuesView,
    events: Seq<ReadEvent>,
    flags: Seq<bool>,
    i: int,
)
    requires
        events.len() == flags.len(),
        0 <= i < events.len(),
        flags[i],
        forall|j: int| 0 <= j <= i ==> events[j] is Decoded,
    ensures
        ({
            let run = reader_run(q, events, flags);
            &&& run.status is Finished
            &&& 0 < run.consumed <= i + 1
            &&& run.queues == route_all(q, messages_of(events.take(run.consumed)))
        }),
    decreases i,
{
    match events[0] {
        ReadEvent::Decoded(m) => {
            let q1 = route_one(q, m);
            if flags[0] {
                let taken = events.take(1);
                assert(taken[0] == events[0]);
                assert(taken.drop_first() == Seq::<ReadEvent>::empty());
                let ms = messages_of(taken);
                assert(messages_of(Seq::<ReadEvent>::empty()) == Seq::<Message>::empty());
                assert(ms == seq![m] + Seq::<Message>::empty());
                assert(ms.drop_first() == Seq::<Message>::empty());
                assert(ms[0] == m);
                assert(route_all(q1, ms.drop_first()) == q1);
                assert(route_all(q, ms) == q1);
                assert(reader_run(q, events, flags) == (ReaderRun {
                    queues: q1,
                    consumed: 1,
                    status: ReaderStatus::Finished,
                }));
            } else {
                assert forall|j: int| 0 <= j <= i - 1 implies events.drop_first()[j]
                    is Decoded by {
                    assert(events[j + 1] is Decoded);
                }
                lemma_reader_shutdown(q1, events.drop_first(), flags.drop_first(), i - 1);
                let rest = reader_run(q1, events.drop_first(), flags.drop_first());
                let n = rest.consumed;
                let taken = events.take(1 + n);
                assert(taken[0] == events[0]);
                assert(taken.drop_first() == events.drop_first().take(n));
                let tail = messages_of(events.drop_first().take(n));
                assert(messages_of(taken) == seq![m] + tail);
                assert((seq![m] + tail)[0] == m);
                assert((seq![m] + tail).drop_first() == tail);
                assert(route_all(q, messages_of(taken)) == route_all(q1, tail));
                assert(reader_run(q, events, flags) == delayed(rest, 1));
            }
        }
        _ => {
            assert(false);
        }
    }
}

} // verus!
