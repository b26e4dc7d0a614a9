use std::collections::VecDeque;
use vstd::prelude::*;

verus! {

/// A result buffer: an owned sequence of bytes. An empty buffer means that
/// there is no payload to deliver.
pub type Buf = Vec<u8>;

/// A reply on its way to script: the identifier of the request that it
/// answers, and the payload.
#[derive(Debug, PartialEq, Eq)]
pub struct Reply {
    pub req_id: i32,
    pub buf: Buf,
}

/// What a `Reply` is in contracts.
pub struct ReplyView {
    pub req_id: i32,
    pub buf: Seq<u8>,
}

impl View for Reply {
    type V = ReplyView;

    open spec fn view(&self) -> ReplyView {
        ReplyView { req_id: self.req_id, buf: self.buf@ }
    }
}

/// The failure of an operation, as the payload that reports it to script. How
/// a failure is put into bytes is the host's business.
#[derive(Debug, PartialEq, Eq)]
pub struct OpError {
    pub payload: Buf,
}

/// The payload that reports how an operation resolved: the result, or what
/// the failure carries.
pub open spec fn outcome_payload(outcome: Result<Buf, OpError>) -> Seq<u8> {
    match outcome {
        Ok(buf) => buf@,
        Err(e) => e.payload@,
    }
}

/// The number of completions in a channel; none in one that is torn down.
pub open spec fn pending_len(pending: Option<Seq<ReplyView>>) -> nat {
    match pending {
        Some(q) => q.len(),
        None => 0,
    }
}

/// The replies of a queue, oldest first.
pub open spec fn replies_view(q: Seq<Reply>) -> Seq<ReplyView> {
    q.map_values(|r: Reply| r@)
}

/// The shared context: what the owner of an execution context and the tasks
/// that it spawned have in common. It holds the arguments and the producer
/// end of the completion channel. The producer end is either present, with
/// the completions that wait for the owner, or torn down for good. The host
/// keeps the whole behind one lock.
pub struct IsolateState {
    argv: Vec<String>,
    tx: Option<VecDeque<Reply>>,
}

impl IsolateState {
    /// The arguments that the context was created with.
    pub closed spec fn spec_argv(&self) -> Seq<String> {
        self.argv@
    }

    /// The completions that wait in the channel, oldest first; `None` once
    /// the producer end is torn down.
    pub closed spec fn pending(&self) -> Option<Seq<ReplyView>> {
        match self.tx {
            Some(q) => Some(replies_view(q@)),
            None => None,
        }
    }

    /// A shared context with an empty channel.
    pub fn new(argv: Vec<String>) -> (s: IsolateState)
        ensures
            s.spec_argv() == argv@,
            s.pending() == Some(Seq::<ReplyView>::empty()),
    {
        IsolateState { argv, tx: Some(VecDeque::new()) }
    }

    /// The arguments that the context was created with.
    pub fn argv(&self) -> (argv: &Vec<String>)
        ensures
            argv@ == self.spec_argv(),
    {
        &self.argv
    }

    /// Whether the producer end is gone.
    pub fn is_torn_down(&self) -> (gone: bool)
        ensures
            gone == (self.pending() is None),
    {
        self.tx.is_none()
    }

    /// The number of completions that wait in the channel; none once the
    /// channel is torn down.
    pub fn len(&self) -> (n: usize)
        ensures
            n == pending_len(self.pending()),
    {
        match &self.tx {
            Some(q) => q.len(),
            None => 0,
        }
    }

    /// Puts the completion `(req_id, buf)` behind those that wait in the
    /// channel. Whoever calls this holds the lock for this one push.
    pub fn send_to_js(&mut self, req_id: i32, buf: Buf)
        requires
            old(self).pending() is Some,
        ensures
            final(self).spec_argv() == old(self).spec_argv(),
            final(self).pending() == Some(
                old(self).pending().unwrap().push(ReplyView { req_id, buf: buf@ }),
            ),
    {
        let ghost before = self.pending().unwrap();
        match &mut self.tx {
            Some(q) => {
                q.push_back(Reply { req_id, buf });
            },
            None => {},
        }
        assert(self.pending().unwrap() =~= before.push(ReplyView { req_id, buf: buf@ }));
    }

    /// Reports how the asynchronous operation behind request `req_id`
    /// resolved. A failure is not dropped: it goes to script as a completion
    /// like a result, with the payload that reports it.
    pub fn resolve(&mut self, req_id: i32, outcome: Result<Buf, OpError>)
        requires
            old(self).pending() is Some,
        ensures
            final(self).spec_argv() == old(self).spec_argv(),
            final(self).pending() == Some(
                old(self).pending().unwrap().push(
                    ReplyView { req_id, buf: outcome_payload(outcome) },
                ),
            ),
    {
        match outcome {
            Ok(buf) => self.send_to_js(req_id, buf),
            Err(e) => self.send_to_js(req_id, e.payload),
        }
    }

    /// Takes the oldest completion out of the channel, if one waits there.
    /// Only the thread that owns the context receives.
    pub fn try_recv(&mut self) -> (reply: Option<Reply>)
        requires
            old(self).pending() is Some,
        ensures
            final(self).spec_argv() == old(self).spec_argv(),
            match reply {
                Some(r) => {
                    &&& old(self).pending().unwrap().len() > 0
                    &&& r@ == old(self).pending().unwrap().first()
                    &&& final(self).pending() == Some(old(self).pending().unwrap().drop_first())
                },
                None => {
                    &&& old(self).pending().unwrap().len() == 0
                    &&& final(self).pending() == old(self).pending()
                },
            },
    {
        let ghost before = self.pending().unwrap();
        let reply = match &mut self.tx {
            Some(q) => q.pop_front(),
            None => None,
        };
        proof {
            if reply is Some {
                assert(self.pending().unwrap() =~= before.drop_first());
            } else {
                assert(self.pending().unwrap() =~= before);
            }
        }
        reply
    }

    /// Deletes the producer end for good. The completions that still wait are
    /// dropped with it, and nothing can be sent or received any more.
    pub fn teardown(&mut self)
        ensures
            final(self).spec_argv() == old(self).spec_argv(),
            final(self).pending() is None,
    {
        self.tx = None;
    }
}

} // verus!
