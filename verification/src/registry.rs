use crate::isolate::Isolate;
use vstd::prelude::*;

verus! {

/// The contexts of one thread, each under the token by which the engine names
/// it. A token is the index of a slot; a slot is never given out twice, so a
/// token that has outlived its context names nothing.
pub struct Registry<H> {
    slots: Vec<Option<Isolate<H>>>,
}

impl<H> View for Registry<H> {
    type V = Map<usize, Isolate<H>>;

    /// The live contexts, by token.
    closed spec fn view(&self) -> Map<usize, Isolate<H>> {
        Map::new(
            |ptr: usize| ptr < self.slots@.len() && self.slots@[ptr as int] is Some,
            |ptr: usize| self.slots@[ptr as int].unwrap(),
        )
    }
}

impl<H> Registry<H> {
    /// The number of tokens given out so far.
    pub closed spec fn spec_issued(&self) -> usize {
        self.slots.len()
    }

    /// The number of tokens given out so far.
    #[verifier::when_used_as_spec(spec_issued)]
    pub fn issued(&self) -> (n: usize)
        ensures
            n == self.spec_issued(),
    {
        self.slots.len()
    }

    /// Every live context carries the token under which it stands. This
    /// holds of a new registry, and stays as long as the contexts are changed
    /// by their own methods only: none of them touches the token.
    pub open spec fn wf(&self) -> bool {
        forall|ptr: usize| #[trigger] self@.dom().contains(ptr) ==> self@[ptr]@.user_data == ptr
    }

    /// A live token is one that was given out.
    pub proof fn lemma_live_tokens_were_issued(&self, ptr: usize)
        requires
            self@.dom().contains(ptr),
        ensures
            ptr < self.issued(),
    {
    }

    /// A registry without contexts.
    pub fn new() -> (registry: Registry<H>)
        ensures
            registry@ == Map::<usize, Isolate<H>>::empty(),
            registry.issued() == 0,
            registry.wf(),
    {
        let registry = Registry { slots: Vec::new() };
        assert(registry@ =~= Map::<usize, Isolate<H>>::empty());
        registry
    }

    /// Whether a context stands under `ptr`.
    pub fn contains(&self, ptr: usize) -> (live: bool)
        ensures
            live == self@.dom().contains(ptr),
    {
        ptr < self.slots.len() && self.slots[ptr].is_some()
    }

    /// Creates a context for `host` under a token that was never given out
    /// before, and returns the token.
    pub fn insert(&mut self, host: H) -> (ptr: usize)
        requires
            old(self).issued() < usize::MAX,
        ensures
            ptr == old(self).issued(),
            !old(self)@.dom().contains(ptr),
            final(self).issued() == old(self).issued() + 1,
            final(self)@.dom() == old(self)@.dom().insert(ptr),
            final(self)@[ptr]@ == (crate::isolate::IsolateView {
                user_data: ptr,
                ntasks: 0,
                timeout_due: None,
            }),
            final(self)@[ptr].spec_host() == host,
            forall|other: usize| #[trigger]
                old(self)@.dom().contains(other) ==> final(self)@[other] == old(self)@[other],
            old(self).wf() ==> final(self).wf(),
    {
        let ptr = self.slots.len();
        let isolate = Isolate::new(host, ptr);
        self.slots.push(Some(isolate));
        assert(self@.dom() =~= old(self)@.dom().insert(ptr));
        ptr
    }

    /// Takes the context under `ptr` out of the registry, if there is one.
    /// The token names nothing afterwards.
    pub fn remove(&mut self, ptr: usize) -> (isolate: Option<Isolate<H>>)
        ensures
            isolate is Some <==> old(self)@.dom().contains(ptr),
            isolate is Some ==> isolate.unwrap() == old(self)@[ptr],
            final(self)@ == old(self)@.remove(ptr),
            final(self).issued() == old(self).issued(),
            old(self).wf() ==> final(self).wf(),
    {
        if ptr < self.slots.len() {
            let mut taken: Option<Isolate<H>> = None;
            std::mem::swap(&mut self.slots[ptr], &mut taken);
            assert(self@ =~= old(self)@.remove(ptr));
            taken
        } else {
            assert(self@ =~= old(self)@.remove(ptr));
            None
        }
    }
}

impl<H> Isolate<H> {
    /// The context that stands under the token `ptr`, or `None` where the
    /// token names no live context. What the caller does to the context is
    /// done to the one in the registry.
    pub fn from_void_ptr(registry: &mut Registry<H>, ptr: usize) -> (isolate: Option<
        &mut Isolate<H>,
    >)
        ensures
            isolate is Some <==> old(registry)@.dom().contains(ptr),
            isolate is Some ==> {
                &&& *isolate.unwrap() == old(registry)@[ptr]
                &&& old(registry).wf() ==> isolate.unwrap()@.user_data == ptr
                &&& final(registry)@ == old(registry)@.insert(ptr, *final(isolate.unwrap()))
            },
            isolate is None ==> final(registry)@ == old(registry)@,
            final(registry).issued() == old(registry).issued(),
    {
        if ptr < registry.slots.len() {
            match &mut registry.slots[ptr] {
                Some(isolate) => Some(isolate),
                None => None,
            }
        } else {
            None
        }
    }
}

} // verus!
