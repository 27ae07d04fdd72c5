//! The bridge as a whole: both ends, the two channels between them, and what holds of
//! every run.
//!
//! The model is a transition system. A state records the proxy on the worker thread,
//! the drain loop on the native-loop thread, and what is in flight between them. A
//! step is one action of one thread. The proxy and the drain loop enter through the
//! transitions that their executable methods are specified with, so whatever is proved
//! here of every run holds of every program that drives the two ends through those
//! methods and moves the messages as the steps say.

use crate::event_loop::{DrainPhase, ProxyState};
use vstd::prelude::*;

verus! {

/// What travels on the request channel. Operations are told apart by a ticket: the
/// number of `execute` calls made before.
pub enum Message {
    /// The `NextEvent` marker.
    Marker,
    /// The operation of the `execute` call with this ticket.
    Execute(nat),
}

/// One action of one thread.
pub enum Step {
    /// Worker: an `execute` call puts its request on the request channel, fires the
    /// wake signal if the proxy says so, and starts waiting for its reply.
    Execute,
    /// Worker: a `next_event` call takes the receiver and puts its marker on the
    /// request channel.
    BeginNextEvent,
    /// Worker: a `next_event` call finds the receiver taken and fails.
    RejectedNextEvent,
    /// Worker: the outstanding `next_event` call receives an event and returns it.
    Resolve,
    /// Native-loop thread: takes an operation off the request channel, runs it and
    /// hands the result to the waiting caller.
    Service,
    /// Native-loop thread: takes the marker off the request channel and returns to
    /// the native loop.
    TakeMarker,
    /// Native-loop thread: finds the request channel empty after a wake signal and
    /// returns to the native loop.
    FindEmpty,
    /// Native loop: delivers a native event, which is put on the event channel.
    NativeEvent,
    /// Native loop: delivers a wake signal.
    NativeWake,
}

/// A state of the bridge.
pub struct Bridge {
    /// The proxy held by the worker thread.
    pub proxy: ProxyState,
    /// The drain loop run by the native-loop thread.
    pub drain: DrainPhase,
    /// Contents of the request channel, oldest first.
    pub requests: Seq<Message>,
    /// Contents of the event channel, oldest first. Events are numbered in the order
    /// in which the native loop delivered them.
    pub events: Seq<nat>,
    /// Ticket of the `execute` call in which the worker is blocked, if it is.
    pub blocked_on: Option<nat>,
    /// Number of `execute` calls made.
    pub sent: nat,
    /// Number of replies handed to their callers.
    pub replied: nat,
    /// Number of native events put on the event channel.
    pub forwarded: nat,
    /// Number of events returned by `next_event` calls.
    pub resolved: nat,
    /// Number of wake signals fired by `execute` calls.
    pub wakes_fired: nat,
    /// Number of wake signals delivered by the native loop.
    pub wakes_delivered: nat,
}

/// Capacity of the request channel and of the event channel.
pub open spec fn capacity() -> nat {
    1
}

impl Bridge {
    /// The bridge when the native-loop thread has been taken over and the worker
    /// thread has just started.
    pub open spec fn init() -> Bridge {
        Bridge {
            proxy: ProxyState::idle(),
            drain: DrainPhase::Draining,
            requests: Seq::empty(),
            events: Seq::empty(),
            blocked_on: None,
            sent: 0,
            replied: 0,
            forwarded: 0,
            resolved: 0,
            wakes_fired: 0,
            wakes_delivered: 0,
        }
    }

    /// The worker thread is free to make a call.
    pub open spec fn worker_runs(self) -> bool {
        self.blocked_on is None
    }

    /// Whether a step can be taken in this state. A send on a full channel and a
    /// receive on an empty one cannot: the thread blocks until it can.
    pub open spec fn enabled(self, step: Step) -> bool {
        match step {
            Step::Execute => self.worker_runs() && self.requests.len() < capacity(),
            Step::BeginNextEvent => {
                &&& self.worker_runs()
                &&& self.proxy.receiver_present
                &&& self.requests.len() < capacity()
            },
            Step::RejectedNextEvent => self.worker_runs() && self.proxy.outstanding(),
            Step::Resolve => {
                &&& self.worker_runs()
                &&& self.proxy.outstanding()
                &&& self.events.len() > 0
            },
            Step::Service => {
                &&& self.drain != DrainPhase::Parked
                &&& self.requests.len() > 0
                &&& self.requests[0] is Execute
            },
            Step::TakeMarker => {
                &&& self.drain != DrainPhase::Parked
                &&& self.requests.len() > 0
                &&& self.requests[0] is Marker
            },
            Step::FindEmpty => self.drain == DrainPhase::Polling && self.requests.len() == 0,
            Step::NativeEvent => self.drain == DrainPhase::Parked && self.events.len() < capacity(),
            Step::NativeWake => {
                &&& self.drain == DrainPhase::Parked
                &&& self.wakes_delivered < self.wakes_fired
            },
        }
    }

    /// The state after a step.
    pub open spec fn next(self, step: Step) -> Bridge {
        match step {
            Step::Execute => Bridge {
                proxy: self.proxy.execute_sent(),
                requests: self.requests.push(Message::Execute(self.sent)),
                blocked_on: Some(self.sent),
                sent: self.sent + 1,
                wakes_fired: if self.proxy.waiting_for_event {
                    self.wakes_fired + 1
                } else {
                    self.wakes_fired
                },
                ..self
            },
            Step::BeginNextEvent => Bridge {
                proxy: self.proxy.receiver_taken().marker_sent(),
                requests: self.requests.push(Message::Marker),
                ..self
            },
            Step::RejectedNextEvent => self,
            Step::Resolve => Bridge {
                proxy: self.proxy.event_received(),
                events: self.events.drop_first(),
                resolved: self.resolved + 1,
                ..self
            },
            Step::Service => Bridge {
                drain: self.drain.after_request(false),
                requests: self.requests.drop_first(),
                blocked_on: None,
                replied: self.replied + 1,
                ..self
            },
            Step::TakeMarker => Bridge {
                drain: self.drain.after_request(true),
                requests: self.requests.drop_first(),
                ..self
            },
            Step::FindEmpty => Bridge { drain: DrainPhase::Parked, ..self },
            Step::NativeEvent => Bridge {
                drain: self.drain.after_occurrence(false),
                events: self.events.push(self.forwarded),
                forwarded: self.forwarded + 1,
                ..self
            },
            Step::NativeWake => Bridge {
                drain: self.drain.after_occurrence(true),
                wakes_delivered: self.wakes_delivered + 1,
                ..self
            },
        }
    }

    /// The native-loop thread holds the worker's marker, or is about to: the marker is
    /// on the request channel, or it has been taken and no event was forwarded since.
    pub open spec fn marker_pending(self) -> bool {
        ||| self.requests.len() > 0 && self.requests[0] is Marker
        ||| self.drain != DrainPhase::Draining
    }

    /// What holds of every state that a run reaches.
    pub open spec fn inv(self) -> bool {
        &&& self.requests.len() <= capacity()
        &&& self.events.len() <= capacity()
        &&& self.proxy.waiting_for_event ==> self.proxy.outstanding()
        &&& match self.blocked_on {
            Some(ticket) => ticket + 1 == self.sent && self.replied == ticket,
            None => self.replied == self.sent,
        }
        &&& forall|i: int|
            0 <= i < self.requests.len() && self.requests[i] is Execute ==> self.blocked_on
                == Some(self.requests[i]->Execute_0)
        &&& self.blocked_on is Some ==> self.requests.len() == 1 && self.requests[0] is Execute
        &&& self.resolved + self.events.len() == self.forwarded
        &&& forall|i: int| 0 <= i < self.events.len() ==> self.events[i] == self.resolved + i
        &&& self.wakes_delivered <= self.wakes_fired
        &&& self.requests.len() > 0 && self.requests[0] is Marker ==> self.drain
            == DrainPhase::Draining
        &&& if self.proxy.outstanding() {
            self.marker_pending() <==> self.events.len() == 0
        } else {
            !self.marker_pending() && self.events.len() == 0
        }
    }
}

/// The state that a sequence of steps leads to.
pub open spec fn run(steps: Seq<Step>) -> Bridge
    decreases steps.len(),
{
    if steps.len() == 0 {
        Bridge::init()
    } else {
        run(steps.drop_last()).next(steps.last())
    }
}

/// Whether a sequence of steps is a run: each step can be taken where it stands.
pub open spec fn valid(steps: Seq<Step>) -> bool
    decreases steps.len(),
{
    steps.len() == 0 || (valid(steps.drop_last()) && run(steps.drop_last()).enabled(steps.last()))
}

/// A step that can be taken keeps the invariant.
pub proof fn lemma_step_keeps_inv(s: Bridge, step: Step)
    requires
        s.inv(),
        s.enabled(step),
    ensures
        s.next(step).inv(),
{
    let t = s.next(step);
    match step {
        Step::Execute => {
            assert(t.requests =~= seq![Message::Execute(s.sent)]);
        },
        Step::BeginNextEvent => {
            assert(t.requests =~= seq![Message::Marker]);
        },
        Step::RejectedNextEvent => {},
        Step::Resolve => {
            assert(t.events =~= Seq::<nat>::empty());
        },
        Step::Service => {
            assert(t.requests =~= Seq::<Message>::empty());
        },
        Step::TakeMarker => {
            assert(t.requests =~= Seq::<Message>::empty());
        },
        Step::FindEmpty => {},
        Step::NativeEvent => {
            assert(t.events =~= seq![s.forwarded]);
        },
        Step::NativeWake => {},
    }
}

/// Every state that a run reaches satisfies the invariant.
pub proof fn lemma_run_keeps_inv(steps: Seq<Step>)
    requires
        valid(steps),
    ensures
        run(steps).inv(),
    decreases steps.len(),
{
    if steps.len() > 0 {
        lemma_run_keeps_inv(steps.drop_last());
        lemma_step_keeps_inv(run(steps.drop_last()), steps.last());
    }
}

/// Number of `execute` calls made since the last `next_event` call sent its marker.
pub open spec fn executes_since_marker(steps: Seq<Step>) -> nat
    decreases steps.len(),
{
    if steps.len() == 0 {
        0
    } else {
        match steps.last() {
            Step::BeginNextEvent => 0,
            Step::Execute => executes_since_marker(steps.drop_last()) + 1,
            _ => executes_since_marker(steps.drop_last()),
        }
    }
}

/// Number of wake signals fired since the last `next_event` call sent its marker.
pub open spec fn wakes_since_marker(steps: Seq<Step>) -> nat
    decreases steps.len(),
{
    if steps.len() == 0 {
        0
    } else {
        match steps.last() {
            Step::BeginNextEvent => 0,
            Step::Execute => if run(steps.drop_last()).proxy.waiting_for_event {
                wakes_since_marker(steps.drop_last()) + 1
            } else {
                wakes_since_marker(steps.drop_last())
            },
            _ => wakes_since_marker(steps.drop_last()),
        }
    }
}

/// When a `next_event` call returns an event, every `execute` call made before has
/// had its reply handed to its caller.
pub proof fn law_replies_precede_resolution(steps: Seq<Step>)
    requires
        valid(steps),
        steps.len() > 0,
        steps.last() is Resolve,
    ensures
        run(steps.drop_last()).replied == run(steps.drop_last()).sent,
        run(steps).replied == run(steps).sent,
{
    lemma_run_keeps_inv(steps.drop_last());
}

/// Requests are serviced in the order in which they were sent, one at a time, and
/// each reply goes to the caller that is waiting for it: the request that the
/// native-loop thread services is the oldest one not yet answered, and its caller
/// is the one blocked.
pub proof fn law_service_answers_the_waiting_caller(steps: Seq<Step>)
    requires
        valid(steps),
        steps.len() > 0,
        steps.last() is Service,
    ensures
        run(steps.drop_last()).requests[0] == Message::Execute(run(steps.drop_last()).replied),
        run(steps.drop_last()).blocked_on == Some(run(steps.drop_last()).replied),
        run(steps).worker_runs(),
{
    lemma_run_keeps_inv(steps.drop_last());
}

/// While the worker is blocked in an `execute` call, its request is the one request in
/// flight, and the native-loop thread can go on: it services the request at once
/// unless it is parked, and if it is parked the native loop can hand it its next
/// occurrence.
pub proof fn law_blocked_caller_is_next_in_line(steps: Seq<Step>)
    requires
        valid(steps),
        run(steps).blocked_on is Some,
    ensures
        run(steps).requests =~= seq![Message::Execute(run(steps).blocked_on->0)],
        run(steps).drain != DrainPhase::Parked ==> run(steps).enabled(Step::Service),
        run(steps).drain == DrainPhase::Parked ==> run(steps).enabled(Step::NativeEvent),
{
    lemma_run_keeps_inv(steps);
}

/// While a `next_event` call is outstanding, a second one can only fail, and its
/// failure changes nothing: the first call receives its event as if the second had
/// not been made.
pub proof fn law_second_next_event_is_rejected(steps: Seq<Step>)
    requires
        valid(steps),
        run(steps).proxy.outstanding(),
    ensures
        !run(steps).enabled(Step::BeginNextEvent),
        run(steps).worker_runs() ==> run(steps).enabled(Step::RejectedNextEvent),
        run(steps).next(Step::RejectedNextEvent) == run(steps),
        run(steps.push(Step::RejectedNextEvent).push(Step::Resolve)) == run(
            steps.push(Step::Resolve),
        ),
{
    let rejected = steps.push(Step::RejectedNextEvent);
    assert(rejected.drop_last() =~= steps);
    assert(run(rejected) == run(steps));
    assert(rejected.push(Step::Resolve).drop_last() =~= rejected);
    assert(run(rejected.push(Step::Resolve)) == run(rejected).next(Step::Resolve));
    assert(steps.push(Step::Resolve).drop_last() =~= steps);
    assert(run(steps.push(Step::Resolve)) == run(steps).next(Step::Resolve));
}

/// The flag `waiting_for_event` is set exactly while a `next_event` call has sent its
/// marker, has not received its event, and no `execute` call was made in between.
pub proof fn lemma_waiting_flag(steps: Seq<Step>)
    requires
        valid(steps),
    ensures
        run(steps).proxy.waiting_for_event <==> run(steps).proxy.outstanding()
            && executes_since_marker(steps) == 0,
    decreases steps.len(),
{
    if steps.len() > 0 {
        lemma_waiting_flag(steps.drop_last());
        lemma_run_keeps_inv(steps.drop_last());
    }
}

/// The flag `waiting_for_event` is set if and only if a `next_event` call has sent
/// its marker and has not yet received its event, as long as no `execute` call was
/// made during the wait.
pub proof fn law_waiting_flag(steps: Seq<Step>)
    requires
        valid(steps),
        !(run(steps).proxy.outstanding() && executes_since_marker(steps) > 0),
    ensures
        run(steps).proxy.waiting_for_event <==> run(steps).proxy.outstanding(),
{
    lemma_waiting_flag(steps);
}

/// Once an `execute` call was made during the wait of a `next_event` call, the flag
/// `waiting_for_event` is clear although the call is still outstanding.
pub proof fn law_execute_clears_waiting_flag(steps: Seq<Step>)
    requires
        valid(steps),
        run(steps).proxy.outstanding(),
        executes_since_marker(steps) > 0,
    ensures
        !run(steps).proxy.waiting_for_event,
{
    lemma_waiting_flag(steps);
}

/// During one wait of a `next_event` call the wake signal is fired once if an
/// `execute` call is made, however many are made, and not at all otherwise.
pub proof fn law_one_wake_per_wait(steps: Seq<Step>)
    requires
        valid(steps),
        run(steps).proxy.outstanding(),
    ensures
        wakes_since_marker(steps) == (if executes_since_marker(steps) > 0 {
            1nat
        } else {
            0nat
        }),
    decreases steps.len(),
{
    if steps.len() > 0 {
        let before = steps.drop_last();
        lemma_run_keeps_inv(before);
        lemma_waiting_flag(before);
        if !(steps.last() is BeginNextEvent) {
            law_one_wake_per_wait(before);
        }
    }
}

/// At most one request is in flight and at most one event is buffered.
pub proof fn law_channels_hold_at_most_one(steps: Seq<Step>)
    requires
        valid(steps),
    ensures
        run(steps).requests.len() <= 1,
        run(steps).events.len() <= 1,
{
    lemma_run_keeps_inv(steps);
}

/// When the native loop is parked, a `next_event` call is waiting and the event
/// channel is empty: the next native event is put on the channel without blocking.
pub proof fn law_forward_never_blocks(steps: Seq<Step>)
    requires
        valid(steps),
        run(steps).drain == DrainPhase::Parked,
    ensures
        run(steps).proxy.outstanding(),
        run(steps).enabled(Step::NativeEvent),
{
    lemma_run_keeps_inv(steps);
}

/// Every native event put on the event channel is returned by exactly one
/// `next_event` call, in the order in which the events were forwarded.
pub proof fn law_events_are_delivered_once_in_order(steps: Seq<Step>)
    requires
        valid(steps),
    ensures
        run(steps).resolved + run(steps).events.len() == run(steps).forwarded,
        steps.len() > 0 && steps.last() is Resolve ==> run(steps.drop_last()).events[0] == run(
            steps.drop_last(),
        ).resolved,
{
    lemma_run_keeps_inv(steps);
    if steps.len() > 0 {
        lemma_run_keeps_inv(steps.drop_last());
    }
}

} // verus!
