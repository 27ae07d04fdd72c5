//! The two ends of the bridge: the proxy that the worker thread holds, and the drain
//! loop that the native-loop thread runs between native events.
//!
//! Neither end touches a channel here. Each is a small state machine: the caller tells
//! it what happened, it updates its state and says what to do next.

use crate::request::Request;
use vstd::prelude::*;

verus! {

/// What the proxy knows about its own `next_event` call.
pub struct ProxyState {
    /// The receiving end of the event channel is in its slot, free for a `next_event`
    /// call to take.
    pub receiver_present: bool,
    /// A `next_event` call has sent its marker and no `execute` call has woken the
    /// native loop since.
    pub waiting_for_event: bool,
}

impl ProxyState {
    /// No `next_event` call is outstanding.
    pub open spec fn idle() -> ProxyState {
        ProxyState { receiver_present: true, waiting_for_event: false }
    }

    /// A `next_event` call holds the receiver.
    pub open spec fn outstanding(self) -> bool {
        !self.receiver_present
    }

    /// A `next_event` call took the receiver out of its slot.
    pub open spec fn receiver_taken(self) -> ProxyState {
        ProxyState { receiver_present: false, ..self }
    }

    /// The `next_event` call sent its marker on the request channel.
    pub open spec fn marker_sent(self) -> ProxyState {
        ProxyState { waiting_for_event: true, ..self }
    }

    /// An `execute` call sent its request.
    pub open spec fn execute_sent(self) -> ProxyState {
        ProxyState { waiting_for_event: false, ..self }
    }

    /// The `next_event` call received its event and put the receiver back.
    pub open spec fn event_received(self) -> ProxyState {
        ProxyState::idle()
    }
}

/// Misuse of the proxy by its caller.
#[derive(Clone, Copy, Debug, PartialEq, Eq, Structural)]
pub enum ProxyError {
    /// A `next_event` call was made while another one is still waiting for its event.
    ReceiverInUse,
}

impl ProxyError {
    /// The text that tells the caller what it did wrong.
    pub fn message(&self) -> (r: &'static str)
        ensures
            r@ == "Receiver already in use"@,
    {
        match self {
            ProxyError::ReceiverInUse => "Receiver already in use",
        }
    }
}

/// What an `execute` call has to hand to the native-loop thread.
pub struct Dispatch<F> {
    /// The request to put on the request channel.
    pub request: Request<F>,
    /// Whether to fire the wake signal after the request is on the channel.
    pub wake: bool,
}

/// The worker thread's handle on the bridge.
///
/// `R` is the receiving end of the event channel. It sits in a slot from which one
/// `next_event` call at a time takes it out.
pub struct WsiEventLoopProxy<R> {
    waiting_for_event: bool,
    event_rx: Option<R>,
}

impl<R> WsiEventLoopProxy<R> {
    /// The state of the proxy, without the receiver itself.
    pub closed spec fn state(&self) -> ProxyState {
        ProxyState {
            receiver_present: self.event_rx is Some,
            waiting_for_event: self.waiting_for_event,
        }
    }

    /// The receiver in the slot, if it is there.
    pub closed spec fn receiver(&self) -> Option<R> {
        self.event_rx
    }

    /// A proxy on which no call has been made yet.
    pub fn new(event_rx: R) -> (r: Self)
        ensures
            r.state() == ProxyState::idle(),
            r.receiver() == Some(event_rx),
    {
        WsiEventLoopProxy { waiting_for_event: false, event_rx: Some(event_rx) }
    }

    /// Whether the native loop is parked on behalf of a `next_event` call and has not
    /// been woken since.
    pub fn waiting_for_event(&self) -> (r: bool)
        ensures
            r == self.state().waiting_for_event,
    {
        self.waiting_for_event
    }

    /// Whether a `next_event` call holds the receiver.
    pub fn is_outstanding(&self) -> (r: bool)
        ensures
            r == self.state().outstanding(),
    {
        self.event_rx.is_none()
    }

    /// First step of `next_event`: takes the receiver for exclusive use.
    ///
    /// Fails at once, changing nothing, when another `next_event` call holds it.
    pub fn begin_next_event(&mut self) -> (r: Result<R, ProxyError>)
        ensures
            match r {
                Ok(event_rx) => {
                    &&& old(self).receiver() == Some(event_rx)
                    &&& final(self).state() == old(self).state().receiver_taken()
                    &&& final(self).receiver() is None
                },
                Err(e) => {
                    &&& e == ProxyError::ReceiverInUse
                    &&& old(self).state().outstanding()
                    &&& *final(self) == *old(self)
                },
            },
    {
        match self.event_rx.take() {
            Some(event_rx) => Ok(event_rx),
            None => Err(ProxyError::ReceiverInUse),
        }
    }

    /// Second step of `next_event`, after the marker is on the request channel: from
    /// now on an `execute` call has to wake the native loop.
    pub fn next_event_requested(&mut self)
        requires
            old(self).state().outstanding(),
        ensures
            final(self).state() == old(self).state().marker_sent(),
            final(self).receiver() == old(self).receiver(),
    {
        self.waiting_for_event = true;
    }

    /// Last step of `next_event`, after the event has arrived: puts the receiver back
    /// for the next call.
    pub fn finish_next_event(&mut self, event_rx: R)
        requires
            old(self).state().outstanding(),
        ensures
            final(self).state() == old(self).state().event_received(),
            final(self).receiver() == Some(event_rx),
    {
        self.waiting_for_event = false;
        self.event_rx = Some(event_rx);
    }

    /// Wraps an operation into a request and decides whether the native loop needs a
    /// wake signal to see it.
    ///
    /// The loop is woken only when it is parked for a `next_event` call, and only by
    /// the first `execute` call after it parked.
    pub fn send_execute_request<F>(&mut self, f: F) -> (dispatch: Dispatch<F>)
        ensures
            dispatch.request == Request::Execute(f),
            dispatch.wake == old(self).state().waiting_for_event,
            final(self).state() == old(self).state().execute_sent(),
            final(self).receiver() == old(self).receiver(),
    {
        let wake = self.waiting_for_event;
        self.waiting_for_event = false;
        Dispatch { request: Request::Execute(f), wake }
    }
}

/// Where the native-loop thread stands between two native events.
#[derive(Clone, Copy, Debug, PartialEq, Eq, Structural)]
pub enum DrainPhase {
    /// Servicing requests until the worker's `NextEvent` marker arrives. The thread
    /// blocks on the request channel.
    Draining,
    /// Woken by the wake signal while the worker's marker is already in hand:
    /// servicing the requests that are queued, without blocking.
    Polling,
    /// Back in the native loop, parked until the next native occurrence.
    Parked,
}

impl DrainPhase {
    /// Phase after a request was taken off the request channel.
    pub open spec fn after_request(self, is_marker: bool) -> DrainPhase {
        if is_marker {
            DrainPhase::Parked
        } else {
            self
        }
    }

    /// Phase after the native loop delivered an occurrence.
    pub open spec fn after_occurrence(self, is_wake: bool) -> DrainPhase {
        if is_wake {
            DrainPhase::Polling
        } else {
            DrainPhase::Draining
        }
    }
}

/// Something the native loop delivered to its callback.
pub enum Occurrence<E> {
    /// The wake signal that an `execute` call fired. It carries nothing.
    Wake,
    /// A native event, already translated.
    Event(E),
}

/// What to do with a request that was taken off the request channel.
pub enum DrainAction<F> {
    /// Run the operation against the window registry, then take the next request.
    Service(F),
    /// Stop servicing requests and return control to the native loop.
    Park,
}

/// The native-loop thread's side of the bridge.
pub struct DrainLoop {
    phase: DrainPhase,
}

impl DrainLoop {
    /// The current phase.
    pub closed spec fn phase(&self) -> DrainPhase {
        self.phase
    }

    /// The loop before the native loop has started: requests are serviced until the
    /// worker asks for its first event.
    pub fn new() -> (r: Self)
        ensures
            r.phase() == DrainPhase::Draining,
    {
        DrainLoop { phase: DrainPhase::Draining }
    }

    /// The current phase.
    pub fn current_phase(&self) -> (r: DrainPhase)
        ensures
            r == self.phase(),
    {
        self.phase
    }

    /// Decides what to do with the request at the head of the request channel.
    ///
    /// An operation is serviced at once; the marker ends the round.
    pub fn handle_request<F>(&mut self, request: Request<F>) -> (action: DrainAction<F>)
        requires
            old(self).phase() != DrainPhase::Parked,
        ensures
            final(self).phase() == old(self).phase().after_request(request is NextEvent),
            action == (match request {
                Request::NextEvent => DrainAction::Park,
                Request::Execute(f) => DrainAction::Service(f),
            }),
    {
        match request {
            Request::NextEvent => {
                self.phase = DrainPhase::Parked;
                DrainAction::Park
            },
            Request::Execute(f) => DrainAction::Service(f),
        }
    }

    /// The request channel was found empty after a wake signal: nothing is left to
    /// service, and the worker already waits for an event, so the loop parks again.
    pub fn handle_empty(&mut self)
        requires
            old(self).phase() == DrainPhase::Polling,
        ensures
            final(self).phase() == DrainPhase::Parked,
    {
        self.phase = DrainPhase::Parked;
    }

    /// Decides whether an occurrence goes to the worker.
    ///
    /// A native event is forwarded, always. The wake signal is not: it only brings the
    /// loop back to the request channel.
    pub fn handle_occurrence<E>(&mut self, occurrence: Occurrence<E>) -> (forward: Option<E>)
        requires
            old(self).phase() == DrainPhase::Parked,
        ensures
            final(self).phase() == old(self).phase().after_occurrence(occurrence is Wake),
            forward == (match occurrence {
                Occurrence::Wake => None,
                Occurrence::Event(e) => Some(e),
            }),
    {
        match occurrence {
            Occurrence::Wake => {
                self.phase = DrainPhase::Polling;
                None
            },
            Occurrence::Event(e) => {
                self.phase = DrainPhase::Draining;
                Some(e)
            },
        }
    }
}

} // verus!
