//! Requests sent from the worker thread to the thread that runs the native loop.

use vstd::prelude::*;
use vstd::string::*;

verus! {

/// One unit of work for the native-loop thread.
///
/// `F` is the operation to run there; it carries its own reply channel, so the bridge
/// never inspects it.
pub enum Request<F> {
    /// The worker is ready for the next native event: stop servicing requests and
    /// return to the native loop.
    NextEvent,
    /// Run the operation on the native-loop thread.
    Execute(F),
}

impl<F> Request<F> {
    /// Whether this is the marker that ends a round of request servicing.
    pub fn is_next_event(&self) -> (r: bool)
        ensures
            r == (self is NextEvent),
    {
        match self {
            Request::NextEvent => true,
            Request::Execute(_) => false,
        }
    }

    /// Name of the request kind, for logs. The operation itself is not shown.
    pub fn describe(&self) -> (r: &'static str)
        ensures
            r@ == (if self is NextEvent {
                "Request::NextEvent"@
            } else {
                "Request::Execute"@
            }),
    {
        match self {
            Request::NextEvent => "Request::NextEvent",
            Request::Execute(_) => "Request::Execute",
        }
    }
}

} // verus!
