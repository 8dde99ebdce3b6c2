//! The minimal request server: a sequential accept-and-dispatch loop.
//!
//! The server accepts connections strictly one at a time and feeds each to
//! at most one registered handler.  The library models the server's state
//! (whether a handler is registered, and which) and decides, for each
//! accept outcome, what the loop does next.  The loop itself, which blocks
//! on the listening socket and performs the actions, runs outside the
//! library and consults [`Dispatcher::dispatch`] once per outcome.

use vstd::prelude::*;

verus! {

/// The outcome of one attempt to accept a connection.
#[derive(Clone, Copy, Debug, PartialEq, Eq, Structural)]
pub enum AcceptEvent {
    /// A connection was accepted; the value identifies it.
    Accepted(u64),
    /// The accept call itself failed.
    Failed,
}

/// What the server does with one accept outcome.  Every action leaves the
/// loop running: no outcome stops the server.
#[derive(Clone, Copy, Debug, PartialEq, Eq, Structural)]
pub enum DispatchAction {
    /// Invoke the registered handler (first value) synchronously on the
    /// accepted connection (second value); the loop does not accept again
    /// until the invocation returns.
    Invoke(u64, u64),
    /// No handler is registered: report that, drop the connection, and
    /// keep accepting.
    DropConnection(u64),
    /// The accept failed: report the error and keep accepting.
    ReportAcceptError,
}

/// The dispatch state after registering a handler on a server whose state
/// was `prev`: the new handler replaces any earlier one.
pub open spec fn registered(prev: Option<u64>, token: u64) -> Option<u64> {
    Some(token)
}

/// The action the server takes on one accept outcome, given the currently
/// registered handler, if any.
pub open spec fn dispatch_spec(handler: Option<u64>, event: AcceptEvent) -> DispatchAction {
    match event {
        AcceptEvent::Accepted(conn) => match handler {
            Some(h) => DispatchAction::Invoke(h, conn),
            None => DispatchAction::DropConnection(conn),
        },
        AcceptEvent::Failed => DispatchAction::ReportAcceptError,
    }
}

/// The actions of a whole run: one action per accept outcome, in order,
/// each determined by the registered handler and that outcome alone.
pub open spec fn run_actions(handler: Option<u64>, events: Seq<AcceptEvent>) -> Seq<DispatchAction> {
    events.map(|i: int, e: AcceptEvent| dispatch_spec(handler, e))
}

/// The request server's dispatch state: the registered handler, if any.
/// A handler is a capability held outside the library; here it is known
/// by an identifying token.
pub struct Dispatcher {
    handler: Option<u64>,
}

impl Dispatcher {
    /// The registered handler's token, or `None` while none is registered.
    pub closed spec fn handler_token(&self) -> Option<u64> {
        self.handler
    }

    /// A fresh server state: no handler registered, which is a valid,
    /// handled state.
    pub fn new() -> (d: Dispatcher)
        ensures
            d.handler_token() is None,
    {
        Dispatcher { handler: None }
    }

    /// Register a handler, replacing any earlier one.  Registration is the
    /// server's only mutation; it affects subsequent dispatches only.
    pub fn set_handler(&mut self, token: u64)
        ensures
            final(self).handler_token() == registered(old(self).handler_token(), token),
            final(self).handler_token() == Some(token),
    {
        self.handler = Some(token);
    }

    /// Decide what the loop does with one accept outcome.  The state is
    /// untouched, so the loop goes on accepting whatever the outcome was.
    pub fn dispatch(&self, event: AcceptEvent) -> (action: DispatchAction)
        ensures
            action == dispatch_spec(self.handler_token(), event),
    {
        match event {
            AcceptEvent::Accepted(conn) => match self.handler {
                Some(h) => DispatchAction::Invoke(h, conn),
                None => DispatchAction::DropConnection(conn),
            },
            AcceptEvent::Failed => DispatchAction::ReportAcceptError,
        }
    }
}

/// How many of the given events are accepted connections.
pub open spec fn accepted_count(events: Seq<AcceptEvent>) -> int
    decreases events.len(),
{
    if events.len() == 0 {
        0
    } else {
        accepted_count(events.drop_last()) + if events.last() is Accepted {
            1int
        } else {
            0int
        }
    }
}

/// How many of the given actions invoke a handler.
pub open spec fn invoke_count(actions: Seq<DispatchAction>) -> int
    decreases actions.len(),
{
    if actions.len() == 0 {
        0
    } else {
        invoke_count(actions.drop_last()) + if actions.last() is Invoke {
            1int
        } else {
            0int
        }
    }
}

/// The server is a strict one-at-a-time sequential dispatcher: a run over
/// a sequence of accept outcomes yields exactly one action per outcome, in
/// order, and the action for an outcome depends on nothing that comes
/// after it.  With a handler registered, every accepted connection leads
/// to exactly one handler invocation, on that very connection.
pub proof fn lemma_sequential_dispatch(handler: Option<u64>, events: Seq<AcceptEvent>)
    ensures
        run_actions(handler, events).len() == events.len(),
        forall|i: int|
            0 <= i < events.len() ==> run_actions(handler, events)[i] == dispatch_spec(
                handler,
                events[i],
            ),
        handler is Some ==> invoke_count(run_actions(handler, events)) == accepted_count(events),
    decreases events.len(),
{
    if events.len() > 0 {
        lemma_sequential_dispatch(handler, events.drop_last());
        assert(run_actions(handler, events).drop_last() =~= run_actions(
            handler,
            events.drop_last(),
        ));
    }
}

/// Re-registering the same handler changes nothing: after setting the
/// handler twice to one token, the dispatch of every event, and so the
/// whole run, is what it is after setting it once — still exactly one
/// invocation per accepted connection.
pub proof fn lemma_register_idempotent(before: Option<u64>, token: u64, events: Seq<AcceptEvent>)
    ensures
        registered(registered(before, token), token) == registered(before, token),
        run_actions(registered(registered(before, token), token), events) == run_actions(
            registered(before, token),
            events,
        ),
        invoke_count(run_actions(registered(before, token), events)) == accepted_count(events),
{
    lemma_sequential_dispatch(Some(token), events);
}

} // verus!
