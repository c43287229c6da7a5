//! What holds of a stream over many inputs.
//!
//! The functions of a stream say what one input does. Here runs of inputs
//! are followed: any run, to show that an ended stream stays ended and that
//! receive attempts are owed to polls and readiness reports; and the run of a
//! driver that does what it is asked against a kernel that holds a queue of
//! reported devices, to show that the queue comes out in its order.

use vstd::prelude::*;
use crate::bridge::Slot;
use crate::device::DeviceView;
use crate::error::Error;
use crate::event::EventView;
use crate::stream::{
    Fate, Input, OutcomeView, Phase, Readiness, ReceivedView, StepView, StreamState,
};

verus! {

/// The stream after a run of inputs.
pub open spec fn after(s: StreamState, inputs: Seq<Input>) -> StreamState
    decreases inputs.len(),
{
    if inputs.len() == 0 {
        s
    } else {
        after(s.next(inputs[0]), inputs.drop_first())
    }
}

/// What the driver is told over a run of inputs, one step for each input.
pub open spec fn trace(s: StreamState, inputs: Seq<Input>) -> Seq<StepView>
    decreases inputs.len(),
{
    if inputs.len() == 0 {
        Seq::empty()
    } else {
        seq![s.step(inputs[0])] + trace(s.next(inputs[0]), inputs.drop_first())
    }
}

/// How many receive attempts a run of steps asks for.
pub open spec fn receive_requests(steps: Seq<StepView>) -> nat
    decreases steps.len(),
{
    if steps.len() == 0 {
        0
    } else {
        (if steps[0] == StepView::Receive {
            1nat
        } else {
            0nat
        }) + receive_requests(steps.drop_first())
    }
}

/// Whether an input is a poll or a report that the socket is readable.
pub open spec fn is_wake(input: Input) -> bool {
    input == Input::Resumed || input == Input::Readiness(Readiness::Ready)
}

/// How many polls and reports that the socket is readable a run holds.
pub open spec fn wakes(inputs: Seq<Input>) -> nat
    decreases inputs.len(),
{
    if inputs.len() == 0 {
        0
    } else {
        (if is_wake(inputs[0]) {
            1nat
        } else {
            0nat
        }) + wakes(inputs.drop_first())
    }
}

/// Whether `input` is what the stream waits for.
pub open spec fn answers(s: StreamState, input: Input) -> bool {
    match s.phase {
        Phase::Idle => input == Input::Resumed,
        Phase::Receiving => input is Received,
        Phase::Checking => input is Readiness,
    }
}

/// Whether every input of a run is what the stream waits for when the input
/// comes: the run of a driver that does what it is asked.
pub open spec fn follows(s: StreamState, inputs: Seq<Input>) -> bool
    decreases inputs.len(),
{
    inputs.len() > 0 ==> answers(s, inputs[0]) && follows(
        s.next(inputs[0]),
        inputs.drop_first(),
    )
}

/// Every input leaves a stream as it must be, and changes nothing of its
/// socket but the readiness slot.
pub proof fn law_wf_is_kept(s: StreamState, input: Input)
    requires
        s.wf(),
    ensures
        s.next(input).wf(),
        s.next(input).socket == s.socket.with_slot(s.next(input).slot()),
{
}

/// An empty queue is never handed to the consumer. The report of one is
/// answered with a readiness check, not with an outcome; and no outcome at
/// all, after any input, is the error that stands for it.
pub proof fn law_would_block_is_absorbed(s: StreamState, input: Input)
    requires
        s.wf(),
    ensures
        s.is_live() ==> s.step(Input::Received(ReceivedView::WouldBlock)) == StepView::PollReady,
        s.step(input) != StepView::Yield(OutcomeView::Error(Error::WouldBlock)),
        s.next(input).fate != Fate::Failed(Error::WouldBlock),
{
}

/// A poll ends pending in one way only: a receive attempt found nothing, the
/// slot was cleared, and the readiness check that followed found nothing
/// either. The slot is then still cleared, and the stream idle.
pub proof fn law_pending_follows_an_empty_queue(s: StreamState, input: Input)
    requires
        s.wf(),
    ensures
        s.is_live() ==> {
            let checking = s.next(Input::Received(ReceivedView::WouldBlock));
            &&& checking.slot() == Slot::Pending
            &&& checking.phase == Phase::Checking
            &&& checking.step(Input::Readiness(Readiness::Pending)) == StepView::Yield(
                OutcomeView::Pending,
            )
            &&& checking.next(Input::Readiness(Readiness::Pending)).phase == Phase::Idle
            &&& checking.step(Input::Readiness(Readiness::Ready)) == StepView::Receive
        },
        s.step(input) == StepView::Yield(OutcomeView::Pending) ==> {
            &&& s.is_live()
            &&& s.phase == Phase::Checking
            &&& input == Input::Readiness(Readiness::Pending)
            &&& s.next(input).slot() == Slot::Pending
            &&& s.next(input).phase == Phase::Idle
        },
{
}

/// The slot is cleared by an empty queue alone: a slot that was set and is
/// pending after an input was cleared because a receive attempt found
/// nothing. And it is set by a report that the socket is readable alone.
pub proof fn law_slot_is_cleared_by_an_empty_queue(s: StreamState, input: Input)
    ensures
        s.slot() == Slot::ReadyUnconsumed && s.next(input).slot() == Slot::Pending ==> s.is_live()
            && input == Input::Received(ReceivedView::WouldBlock),
        s.slot() == Slot::Pending && s.next(input).slot() == Slot::ReadyUnconsumed ==> s.is_live()
            && input == Input::Readiness(Readiness::Ready),
{
}

/// The devices that a run of inputs reports, in the order of the reports.
pub open spec fn reported(inputs: Seq<Input>) -> Seq<DeviceView>
    decreases inputs.len(),
{
    if inputs.len() == 0 {
        Seq::empty()
    } else {
        (match inputs[0] {
            Input::Received(ReceivedView::Device(d)) => seq![d],
            _ => Seq::empty(),
        }) + reported(inputs.drop_first())
    }
}

/// The events that a run of steps hands to the consumer, in their order.
pub open spec fn events(steps: Seq<StepView>) -> Seq<EventView>
    decreases steps.len(),
{
    if steps.len() == 0 {
        Seq::empty()
    } else {
        (match steps[0] {
            StepView::Yield(OutcomeView::Event(e)) => seq![e],
            _ => Seq::empty(),
        }) + events(steps.drop_first())
    }
}

/// The events that a list of devices decodes to, one for one.
pub open spec fn decoded(devices: Seq<DeviceView>) -> Seq<EventView> {
    Seq::new(devices.len(), |i: int| EventView::decode(devices[i]))
}

/// Over any run that leaves the stream live, the consumer is handed exactly
/// the devices that were reported, each once, each decoded, in the order in
/// which they were reported: none is lost, none comes twice, none overtakes
/// another, whatever readiness checks and polls lie between them.
pub proof fn law_every_device_is_one_event(s: StreamState, inputs: Seq<Input>)
    requires
        after(s, inputs).is_live(),
    ensures
        events(trace(s, inputs)) == decoded(reported(inputs)),
    decreases inputs.len(),
{
    if inputs.len() > 0 {
        let t = s.next(inputs[0]);
        let rest = inputs.drop_first();
        lemma_live_at_the_end(t, rest);
        lemma_live_at_the_end(s, inputs);
        law_every_device_is_one_event(t, rest);
        let steps = trace(s, inputs);
        assert(steps[0] == s.step(inputs[0]));
        assert(steps.drop_first() =~= trace(t, rest));
        assert(events(steps) =~= decoded(reported(inputs)));
    } else {
        assert(events(trace(s, inputs)) =~= decoded(reported(inputs)));
    }
}

/// A receive attempt is asked for by a poll or by a readiness report only,
/// never by the report of a receive attempt. Where the driver does what it is
/// asked, it is a poll or a report that the socket is readable.
pub proof fn law_receive_is_owed_to_a_wake(s: StreamState, input: Input)
    requires
        s.wf(),
        s.step(input) == StepView::Receive,
    ensures
        s.is_live(),
        input == Input::Resumed || input is Readiness,
        answers(s, input) ==> is_wake(input),
{
}

/// Over the run of a driver that does what it is asked, however long, the
/// stream asks for no more receive attempts than the run holds polls and
/// reports that the socket is readable; and for exactly as many while it is
/// live. So a stream that is not polled and whose socket is not reported
/// readable makes no receive attempt.
pub proof fn law_receive_attempts_are_bounded(s: StreamState, inputs: Seq<Input>)
    requires
        s.wf(),
        follows(s, inputs),
    ensures
        receive_requests(trace(s, inputs)) <= wakes(inputs),
        after(s, inputs).is_live() ==> receive_requests(trace(s, inputs)) == wakes(inputs),
        after(s, inputs).wf(),
    decreases inputs.len(),
{
    if inputs.len() > 0 {
        let t = s.next(inputs[0]);
        let rest = inputs.drop_first();
        law_wf_is_kept(s, inputs[0]);
        law_receive_attempts_are_bounded(t, rest);
        let steps = trace(s, inputs);
        assert(steps[0] == s.step(inputs[0]));
        assert(steps.drop_first() =~= trace(t, rest));
        if after(s, inputs).is_live() {
            lemma_live_at_the_end(t, rest);
        }
    }
}

/// A stream that is live after a run was live before it.
pub proof fn lemma_live_at_the_end(s: StreamState, inputs: Seq<Input>)
    requires
        after(s, inputs).is_live(),
    ensures
        s.is_live(),
    decreases inputs.len(),
{
    if inputs.len() > 0 {
        lemma_live_at_the_end(s.next(inputs[0]), inputs.drop_first());
    }
}

/// A stream that has ended stays as it is whatever comes, hands every poll
/// and every report the outcome that it ended with, and asks for no receive
/// attempt.
pub proof fn law_ended_stream_stays_ended(s: StreamState, inputs: Seq<Input>)
    requires
        !s.is_live(),
    ensures
        after(s, inputs) == s,
        trace(s, inputs).len() == inputs.len(),
        forall|i: int|
            0 <= i < inputs.len() ==> #[trigger] trace(s, inputs)[i] == StepView::Yield(
                s.fate.outcome(),
            ),
        receive_requests(trace(s, inputs)) == 0,
    decreases inputs.len(),
{
    if inputs.len() > 0 {
        let rest = inputs.drop_first();
        law_ended_stream_stays_ended(s, rest);
        let steps = trace(s, inputs);
        assert(steps.drop_first() =~= trace(s, rest));
        assert forall|i: int| 0 <= i < inputs.len() implies #[trigger] steps[i] == StepView::Yield(
            s.fate.outcome(),
        ) by {
            if i > 0 {
                assert(steps[i] == trace(s, rest)[i - 1]);
            }
        }
    }
}

/// Once an error has been handed to the consumer, every later input is
/// answered with the same error, and no receive attempt is asked for again.
/// The same holds of the clean end.
pub proof fn law_terminal_outcome_is_repeated(s: StreamState, input: Input, later: Seq<Input>)
    requires
        s.wf(),
        s.step(input) matches StepView::Yield(o) && (o is Error || o is End),
    ensures
        !s.next(input).is_live(),
        after(s.next(input), later) == s.next(input),
        forall|i: int|
            0 <= i < later.len() ==> #[trigger] trace(s.next(input), later)[i] == s.step(input),
        receive_requests(trace(s.next(input), later)) == 0,
{
    law_ended_stream_stays_ended(s.next(input), later);
}

/// What one poll gave, and what it left.
pub struct Polled {
    pub stream: StreamState,
    /// What the kernel still holds.
    pub queue: Seq<DeviceView>,
    /// What the driver was told during the poll, step by step.
    pub steps: Seq<StepView>,
}

impl Polled {
    /// What the poll handed to the consumer: the outcome of its last step.
    pub open spec fn outcome(self) -> OutcomeView {
        outcome_of(self.steps.last())
    }

    /// How many receive attempts the poll asked for.
    pub open spec fn receives(self) -> nat {
        receive_requests(self.steps)
    }
}

/// One poll of a live stream by a driver that does what it is asked, while
/// the kernel holds `queue` and reports nothing more: the receive attempt
/// takes the first device where there is one, and finds nothing where there
/// is none, and the readiness check that then follows finds nothing either.
pub open spec fn poll(s: StreamState, queue: Seq<DeviceView>) -> Polled {
    let receiving = s.next(Input::Resumed);
    if queue.len() > 0 {
        let got = Input::Received(ReceivedView::Device(queue[0]));
        Polled {
            stream: receiving.next(got),
            queue: queue.drop_first(),
            steps: seq![s.step(Input::Resumed), receiving.step(got)],
        }
    } else {
        let empty = Input::Received(ReceivedView::WouldBlock);
        let checking = receiving.next(empty);
        let nothing = Input::Readiness(Readiness::Pending);
        Polled {
            stream: checking.next(nothing),
            queue,
            steps: seq![s.step(Input::Resumed), receiving.step(empty), checking.step(nothing)],
        }
    }
}

/// The outcome that a step ends a poll with. A step that asks for a call
/// ends none; it is given the outcome of a poll that waits.
pub open spec fn outcome_of(step: StepView) -> OutcomeView {
    match step {
        StepView::Yield(o) => o,
        _ => OutcomeView::Pending,
    }
}

/// What a run of polls gave, and what it left.
pub struct Drained {
    pub stream: StreamState,
    pub queue: Seq<DeviceView>,
    /// The outcome of each poll, in the order of the polls.
    pub outcomes: Seq<OutcomeView>,
    /// How many receive attempts the polls took together.
    pub receives: nat,
}

/// `polls` polls, one after the other, as [`poll`] makes them.
pub open spec fn drain(s: StreamState, queue: Seq<DeviceView>, polls: nat) -> Drained
    decreases polls,
{
    if polls == 0 {
        Drained { stream: s, queue, outcomes: Seq::empty(), receives: 0 }
    } else {
        let first = poll(s, queue);
        let rest = drain(first.stream, first.queue, (polls - 1) as nat);
        Drained {
            stream: rest.stream,
            queue: rest.queue,
            outcomes: seq![first.outcome()] + rest.outcomes,
            receives: first.receives() + rest.receives,
        }
    }
}

/// The driver of [`poll`] does what it is asked: the poll of a live stream
/// asks for a receive attempt first, an empty queue is answered with the
/// request for a readiness check, and the poll ends right after the device
/// or after the check.
pub proof fn law_poll_follows_the_requests(s: StreamState, queue: Seq<DeviceView>)
    requires
        s.wf(),
        s.is_live(),
    ensures
        s.step(Input::Resumed) == StepView::Receive,
        queue.len() > 0 ==> s.next(Input::Resumed).step(
            Input::Received(ReceivedView::Device(queue[0])),
        ) == StepView::Yield(OutcomeView::Event(EventView::decode(queue[0]))),
        queue.len() == 0 ==> s.next(Input::Resumed).step(
            Input::Received(ReceivedView::WouldBlock),
        ) == StepView::PollReady && s.next(Input::Resumed).next(
            Input::Received(ReceivedView::WouldBlock),
        ).step(Input::Readiness(Readiness::Pending)) == StepView::Yield(OutcomeView::Pending),
        poll(s, queue).steps =~= (if queue.len() > 0 {
            seq![
                StepView::Receive,
                StepView::Yield(OutcomeView::Event(EventView::decode(queue[0]))),
            ]
        } else {
            seq![StepView::Receive, StepView::PollReady, StepView::Yield(OutcomeView::Pending)]
        }),
        poll(s, queue).receives() == 1,
        poll(s, queue).outcome() == (if queue.len() > 0 {
            OutcomeView::Event(EventView::decode(queue[0]))
        } else {
            OutcomeView::Pending
        }),
        poll(s, queue).stream.wf(),
        poll(s, queue).stream.is_live(),
        poll(s, queue).stream.phase == Phase::Idle,
        poll(s, queue).stream.slot() == (if queue.len() > 0 {
            s.slot()
        } else {
            Slot::Pending
        }),
{
    let steps = poll(s, queue).steps;
    let tail = steps.drop_first();
    assert(tail.drop_first().len() == 0 || tail.drop_first().drop_first().len() == 0);
    assert(receive_requests(tail.drop_first()) == 0) by {
        reveal_with_fuel(receive_requests, 2);
    }
    assert(receive_requests(tail) == 0);
    assert(receive_requests(steps) == 1);
}

/// Draining a live stream while the kernel holds a queue of reported devices
/// and adds nothing to it gives one event for each device, in the order of
/// the queue, each decoded from its device; every poll after that ends
/// pending. The stream never ends on its own, and every poll takes one
/// receive attempt, the polls that wait too.
pub proof fn law_drain_yields_the_queue_in_order(
    s: StreamState,
    queue: Seq<DeviceView>,
    polls: nat,
)
    requires
        s.wf(),
        s.is_live(),
    ensures
        drain(s, queue, polls).outcomes.len() == polls,
        forall|i: int|
            0 <= i < polls ==> #[trigger] drain(s, queue, polls).outcomes[i] == (if i
                < queue.len() {
                OutcomeView::Event(EventView::decode(queue[i]))
            } else {
                OutcomeView::Pending
            }),
        drain(s, queue, polls).stream.is_live(),
        drain(s, queue, polls).stream.wf(),
        drain(s, queue, polls).receives == polls,
        drain(s, queue, polls).queue =~= (if polls <= queue.len() {
            queue.skip(polls as int)
        } else {
            Seq::empty()
        }),
    decreases polls,
{
    if polls > 0 {
        law_poll_follows_the_requests(s, queue);
        let first = poll(s, queue);
        let fewer = (polls - 1) as nat;
        law_drain_yields_the_queue_in_order(first.stream, first.queue, fewer);
        let rest = drain(first.stream, first.queue, fewer);
        let all = drain(s, queue, polls);
        assert(all.outcomes =~= seq![first.outcome()] + rest.outcomes);
        assert forall|i: int| 0 <= i < polls implies #[trigger] all.outcomes[i] == (if i
            < queue.len() {
            OutcomeView::Event(EventView::decode(queue[i]))
        } else {
            OutcomeView::Pending
        }) by {
            if i > 0 {
                assert(all.outcomes[i] == rest.outcomes[i - 1]);
                if i < queue.len() {
                    assert(first.queue[i - 1] == queue[i]);
                }
            }
        }
    }
}

} // verus!
