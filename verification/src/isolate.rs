use crate::state::{Buf, IsolateState, OpError, ReplyView};
use vstd::prelude::*;

verus! {

/// The request identifier of the reply that wakes script when a deadline has
/// passed. No request of script carries it.
pub const TIMEOUT_REQ_ID: i32 = -1;

/// A reply as the engine takes it: the token of the context that delivers it,
/// the identifier of the request that it answers, and the payload.
#[derive(Debug, PartialEq, Eq)]
pub struct Response {
    pub user_data: usize,
    pub req_id: i32,
    pub buf: Buf,
}

/// What a `Response` is in contracts.
pub struct ResponseView {
    pub user_data: usize,
    pub req_id: i32,
    pub buf: Seq<u8>,
}

impl View for Response {
    type V = ResponseView;

    open spec fn view(&self) -> ResponseView {
        ResponseView { user_data: self.user_data, req_id: self.req_id, buf: self.buf@ }
    }
}

/// What the owner of a context does next with a request that the dispatch
/// function has classified.
#[derive(Debug, PartialEq, Eq)]
pub enum Dispatched<O> {
    /// Run the operation to completion on the owning thread, then hand its
    /// outcome to `respond_sync`.
    Sync { req_id: i32, op: O },
    /// The operation is counted as outstanding. Hand it to the task pool; when
    /// it resolves, report its outcome under `req_id` through the shared state.
    Async { req_id: i32, op: O },
}

/// What the owner of a context does next in its event loop.
#[derive(Debug, PartialEq, Eq)]
pub enum LoopAction {
    /// Nothing is outstanding and no deadline is set: the loop is over.
    Idle,
    /// Deliver this reply to the engine, then step again.
    Respond(Response),
    /// Block until a completion arrives: without bound for `None`, for at most
    /// the given time for `Some`. Then step again.
    Wait(Option<u64>),
}

/// What a `LoopAction` is in contracts.
pub enum LoopActionView {
    Idle,
    Respond(ResponseView),
    Wait(Option<u64>),
}

impl View for LoopAction {
    type V = LoopActionView;

    open spec fn view(&self) -> LoopActionView {
        match self {
            LoopAction::Idle => LoopActionView::Idle,
            LoopAction::Respond(r) => LoopActionView::Respond(r@),
            LoopAction::Wait(d) => LoopActionView::Wait(*d),
        }
    }
}

/// What a context is in contracts: its token, the number of asynchronous
/// operations that were spawned and not yet delivered, and its wake deadline.
pub struct IsolateView {
    pub user_data: usize,
    pub ntasks: int,
    pub timeout_due: Option<u64>,
}

impl IsolateView {
    /// Nothing is outstanding and no deadline is set.
    pub open spec fn is_idle(self) -> bool {
        self.ntasks == 0 && self.timeout_due is None
    }

    /// The context after it has counted one more outstanding operation.
    pub open spec fn spawned(self) -> IsolateView {
        IsolateView { ntasks: self.ntasks + 1, ..self }
    }

    /// The context after one outstanding operation has been delivered.
    pub open spec fn completed(self) -> IsolateView {
        IsolateView { ntasks: self.ntasks - 1, ..self }
    }

    /// The reply as this context hands it to the engine.
    pub open spec fn response(self, reply: ReplyView) -> ResponseView {
        ResponseView { user_data: self.user_data, req_id: reply.req_id, buf: reply.buf }
    }

    /// The reply that wakes script after the deadline.
    pub open spec fn timeout_response(self) -> ResponseView {
        ResponseView { user_data: self.user_data, req_id: TIMEOUT_REQ_ID, buf: Seq::empty() }
    }
}

/// One step of the event loop: the context and the channel after it, and what
/// the owner does next.
pub struct LoopStep {
    pub isolate: IsolateView,
    pub pending: Seq<ReplyView>,
    pub action: LoopActionView,
}

/// The event loop's rule. An idle context ends the loop. Otherwise the oldest
/// completion in the channel, if there is one, is taken and delivered. With
/// an empty channel, a deadline that has passed gives the timeout reply; one
/// that has not gives a wait for the time that is left; no deadline gives a
/// wait without bound.
pub open spec fn loop_step(isolate: IsolateView, pending: Seq<ReplyView>, now: u64) -> LoopStep {
    if isolate.is_idle() {
        LoopStep { isolate, pending, action: LoopActionView::Idle }
    } else if pending.len() > 0 {
        LoopStep {
            isolate: isolate.completed(),
            pending: pending.drop_first(),
            action: LoopActionView::Respond(isolate.response(pending[0])),
        }
    } else {
        match isolate.timeout_due {
            Some(due) => if now >= due {
                LoopStep {
                    isolate,
                    pending,
                    action: LoopActionView::Respond(isolate.timeout_response()),
                }
            } else {
                LoopStep {
                    isolate,
                    pending,
                    action: LoopActionView::Wait(Some((due - now) as u64)),
                }
            },
            None => LoopStep { isolate, pending, action: LoopActionView::Wait(None) },
        }
    }
}

/// The reply to a synchronous request whose operation resolved to `outcome`.
/// A result is delivered unless it is empty. A failure is always delivered,
/// as the payload that reports it.
pub open spec fn sync_response(
    isolate: IsolateView,
    req_id: i32,
    outcome: Result<Buf, OpError>,
) -> Option<ResponseView> {
    match outcome {
        Ok(buf) => if buf@.len() == 0 {
            None
        } else {
            Some(ResponseView { user_data: isolate.user_data, req_id, buf: buf@ })
        },
        Err(e) => Some(ResponseView { user_data: isolate.user_data, req_id, buf: e.payload@ }),
    }
}

/// An execution context: the state that the thread owning an engine instance
/// keeps for it. `H` is what the host keeps with the context, the engine's
/// handle first of all; the context only carries it. The count of outstanding
/// operations is never below zero. The deadline and the `now` of the event
/// loop are readings of one clock that does not go back, in a unit of the
/// host's choice.
pub struct Isolate<H> {
    host: H,
    user_data: usize,
    ntasks: i32,
    timeout_due: Option<u64>,
}

impl<H> View for Isolate<H> {
    type V = IsolateView;

    closed spec fn view(&self) -> IsolateView {
        IsolateView {
            user_data: self.user_data,
            ntasks: self.ntasks as int,
            timeout_due: self.timeout_due,
        }
    }
}

impl<H> Isolate<H> {
    #[verifier::type_invariant]
    spec fn counter_is_natural(self) -> bool {
        self.ntasks >= 0
    }

    /// What the host keeps with this context.
    pub closed spec fn spec_host(&self) -> H {
        self.host
    }

    /// A context with the token `user_data`: nothing outstanding, no deadline.
    pub fn new(host: H, user_data: usize) -> (isolate: Isolate<H>)
        ensures
            isolate@ == (IsolateView { user_data, ntasks: 0, timeout_due: None }),
            isolate@.is_idle(),
            isolate.spec_host() == host,
    {
        Isolate { host, user_data, ntasks: 0, timeout_due: None }
    }

    /// What the host keeps with this context.
    pub fn host(&self) -> (host: &H)
        ensures
            *host == self.spec_host(),
    {
        &self.host
    }

    /// The token by which the engine names this context.
    pub fn as_void_ptr(&self) -> (ptr: usize)
        ensures
            ptr == self@.user_data,
    {
        self.user_data
    }

    /// The number of asynchronous operations spawned and not yet delivered.
    pub fn ntasks(&self) -> (n: i32)
        ensures
            n == self@.ntasks,
            n >= 0,
    {
        proof {
            use_type_invariant(self);
        }
        self.ntasks
    }

    /// The wake deadline, if one is set.
    pub fn timeout_due(&self) -> (due: Option<u64>)
        ensures
            due == self@.timeout_due,
    {
        self.timeout_due
    }

    /// Sets, moves or clears the wake deadline. The event loop never clears
    /// it: who sets a deadline clears or moves it once it has passed.
    pub fn set_timeout_due(&mut self, due: Option<u64>)
        ensures
            final(self)@ == (IsolateView { timeout_due: due, ..old(self)@ }),
            final(self).spec_host() == old(self).spec_host(),
    {
        proof {
            use_type_invariant(&*self);
        }
        self.timeout_due = due;
    }

    /// Whether nothing is outstanding and no deadline is set.
    pub fn is_idle(&self) -> (idle: bool)
        ensures
            idle == self@.is_idle(),
    {
        self.ntasks == 0 && self.timeout_due.is_none()
    }

    /// Counts one more outstanding operation.
    pub fn ntasks_increment(&mut self)
        requires
            old(self)@.ntasks < i32::MAX,
        ensures
            final(self)@ == old(self)@.spawned(),
            final(self).spec_host() == old(self).spec_host(),
    {
        proof {
            use_type_invariant(&*self);
        }
        self.ntasks = self.ntasks + 1;
    }

    /// Takes one operation off the count.
    pub fn ntasks_decrement(&mut self)
        requires
            old(self)@.ntasks > 0,
        ensures
            final(self)@ == old(self)@.completed(),
            final(self).spec_host() == old(self).spec_host(),
    {
        self.ntasks = self.ntasks - 1;
    }

    /// The reply `(req_id, buf)` as this context hands it to the engine.
    pub fn respond(&self, req_id: i32, buf: Buf) -> (response: Response)
        ensures
            response@ == self@.response(ReplyView { req_id, buf: buf@ }),
    {
        Response { user_data: self.user_data, req_id, buf }
    }

    /// Takes the completion `(req_id, buf)` of an asynchronous operation off
    /// the count and gives the reply for the engine. The reply is delivered
    /// whatever the buffer holds.
    pub fn complete_op(&mut self, req_id: i32, buf: Buf) -> (response: Response)
        requires
            old(self)@.ntasks > 0,
        ensures
            final(self)@ == old(self)@.completed(),
            final(self).spec_host() == old(self).spec_host(),
            response@ == old(self)@.response(ReplyView { req_id, buf: buf@ }),
    {
        self.ntasks_decrement();
        self.respond(req_id, buf)
    }

    /// The reply that wakes script after the deadline: the reserved request
    /// identifier and an empty payload. The count stays as it is.
    pub fn timeout(&self) -> (response: Response)
        ensures
            response@ == self@.timeout_response(),
    {
        Response { user_data: self.user_data, req_id: TIMEOUT_REQ_ID, buf: Vec::new() }
    }

    /// Decides what happens to a request that the dispatch function has
    /// classified. A synchronous one changes nothing here: its operation is
    /// to be run at once. An asynchronous one is counted as outstanding
    /// before it is handed out.
    pub fn pre_dispatch<O>(&mut self, req_id: i32, is_sync: bool, op: O) -> (next: Dispatched<O>)
        requires
            !is_sync ==> old(self)@.ntasks < i32::MAX,
        ensures
            final(self)@ == (if is_sync {
                old(self)@
            } else {
                old(self)@.spawned()
            }),
            final(self).spec_host() == old(self).spec_host(),
            next == (if is_sync {
                Dispatched::Sync { req_id, op }
            } else {
                Dispatched::Async { req_id, op }
            }),
    {
        if is_sync {
            Dispatched::Sync { req_id, op }
        } else {
            self.ntasks_increment();
            Dispatched::Async { req_id, op }
        }
    }

    /// The reply to the synchronous request `req_id`, whose operation
    /// resolved to `outcome`, or `None` where no reply is sent.
    pub fn respond_sync(&self, req_id: i32, outcome: Result<Buf, OpError>) -> (response: Option<
        Response,
    >)
        ensures
            sync_response(self@, req_id, outcome) == match response {
                Some(r) => Some(r@),
                None => None,
            },
    {
        match outcome {
            Ok(buf) => if buf.len() != 0 {
                Some(self.respond(req_id, buf))
            } else {
                None
            },
            Err(e) => Some(self.respond(req_id, e.payload)),
        }
    }

    /// Maps what the engine reported of a script that it ran. `status` is the
    /// engine's value, where zero says that the script failed;
    /// `last_exception` fetches the text of the engine's last exception, and
    /// is called only after a failure.
    pub fn execute<F: FnOnce() -> String>(&self, status: i32, last_exception: F) -> (result: Result<
        (),
        String,
    >)
        requires
            last_exception.requires(()),
        ensures
            status != 0 ==> result is Ok,
            status == 0 ==> result is Err && last_exception.ensures((), result->Err_0),
    {
        if status == 0 {
            Err(last_exception())
        } else {
            Ok(())
        }
    }

    /// One step of the event loop. `state` is the shared context of this
    /// execution context, held under its lock; `now` is the owner's clock.
    /// The owner does what the result says and steps again, until the result
    /// is `Idle`. An idle context does not look at the channel. One that is
    /// not needs the channel's producer end in place, and every completion in
    /// the channel counted: the count is never driven below zero.
    pub fn event_loop(&mut self, state: &mut IsolateState, now: u64) -> (action: LoopAction)
        requires
            !old(self)@.is_idle() ==> old(state).pending() is Some && old(
                state,
            ).pending().unwrap().len() <= old(self)@.ntasks,
        ensures
            old(self)@.is_idle() ==> {
                &&& action@ is Idle
                &&& final(self)@ == old(self)@
                &&& final(state).pending() == old(state).pending()
            },
            !old(self)@.is_idle() ==> {
                let step = loop_step(old(self)@, old(state).pending().unwrap(), now);
                &&& final(self)@ == step.isolate
                &&& final(state).pending() == Some(step.pending)
                &&& action@ == step.action
            },
            final(self).spec_host() == old(self).spec_host(),
            final(state).spec_argv() == old(state).spec_argv(),
    {
        if self.is_idle() {
            return LoopAction::Idle;
        }
        match state.try_recv() {
            Some(reply) => LoopAction::Respond(self.complete_op(reply.req_id, reply.buf)),
            None => match self.timeout_due {
                Some(due) => if now >= due {
                    LoopAction::Respond(self.timeout())
                } else {
                    LoopAction::Wait(Some(due - now))
                },
                None => LoopAction::Wait(None),
            },
        }
    }
}

} // verus!
