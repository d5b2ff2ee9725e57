//! The ambient context: for each request in flight, the identity that its
//! handler may read.
//!
//! The context is a value that the host threads through its request
//! handling, with one slot per request, keyed by a number that the host
//! gives the request. A slot is bound to the request, not to the thread
//! that happens to run it, so a request that moves between workers keeps
//! its slot, and no request can see the slot of another.

use vstd::prelude::*;
use std::collections::HashMap;
use crate::token::{ContextView, SaTokenContext};

verus! {

broadcast use vstd::std_specs::hash::group_hash_axioms;

/// The slots of the requests in flight.
pub struct AmbientContext {
    slots: HashMap<u64, SaTokenContext>,
}

impl View for AmbientContext {
    type V = Map<u64, ContextView>;

    closed spec fn view(&self) -> Map<u64, ContextView> {
        self.slots@.map_values(|context: SaTokenContext| context@)
    }
}

impl AmbientContext {
    /// A context in which no request has a slot.
    pub fn new() -> (ambient: Self)
        ensures
            ambient@ == Map::<u64, ContextView>::empty(),
    {
        let ambient = AmbientContext { slots: HashMap::new() };
        assert(ambient@ =~= Map::<u64, ContextView>::empty());
        ambient
    }

    /// Fills the slot of `request` with `context`.
    pub fn publish(&mut self, request: u64, context: SaTokenContext)
        ensures
            final(self)@ == old(self)@.insert(request, context@),
    {
        self.slots.insert(request, context);
        assert(self@ =~= old(self)@.insert(request, context@));
    }

    /// Empties the slot of `request`.
    pub fn clear(&mut self, request: u64)
        ensures
            final(self)@ == old(self)@.remove(request),
    {
        self.slots.remove(&request);
        assert(self@ =~= old(self)@.remove(request));
    }

    /// What the slot of `request` holds.
    pub fn current(&self, request: u64) -> (context: Option<&SaTokenContext>)
        ensures
            match context {
                Some(c) => self@.contains_key(request) && self@[request] == c@,
                None => !self@.contains_key(request),
            },
    {
        self.slots.get(&request)
    }

    /// Runs `handler` for `request` with `context` in its slot, and empties
    /// the slot when the handler has returned.
    pub fn scope<T, H: FnOnce(&AmbientContext) -> T>(
        &mut self,
        request: u64,
        context: SaTokenContext,
        handler: H,
    ) -> (output: T)
        requires
            forall|during: &AmbientContext|
                during@ == old(self)@.insert(request, context@) ==> call_requires(
                    handler,
                    (during,),
                ),
        ensures
            final(self)@ == old(self)@.remove(request),
            exists|during: AmbientContext|
                during@ == old(self)@.insert(request, context@) && #[trigger] call_ensures(
                    handler,
                    (&during,),
                    output,
                ),
    {
        self.publish(request, context);
        let output = handler(&*self);
        assert(self@ == old(self)@.insert(request, context@) && call_ensures(
            handler,
            (&*self,),
            output,
        ));
        self.clear(request);
        assert(self@ =~= old(self)@.remove(request));
        output
    }
}

/// Before anything is published no request has a slot.
pub proof fn lemma_empty_before_publish(request: u64)
    ensures
        !Map::<u64, ContextView>::empty().contains_key(request),
{
}

/// After `publish` the slot of the request holds exactly what was
/// published.
pub proof fn lemma_publish_then_current(
    slots: Map<u64, ContextView>,
    request: u64,
    context: ContextView,
)
    ensures
        slots.insert(request, context).contains_key(request),
        slots.insert(request, context)[request] == context,
{
}

/// After `clear` the slot of the request is empty, and a slot that was
/// empty before `publish` and `clear` leaves the context as it was.
pub proof fn lemma_clear_empties(slots: Map<u64, ContextView>, request: u64, context: ContextView)
    ensures
        !slots.remove(request).contains_key(request),
        !slots.contains_key(request) ==> slots.insert(request, context).remove(request) == slots,
{
    if !slots.contains_key(request) {
        assert(slots.insert(request, context).remove(request) =~= slots);
    }
}

/// Two requests do not see each other: to publish or clear the slot of
/// one leaves the slot of every other request as it was.
pub proof fn lemma_requests_are_isolated(
    slots: Map<u64, ContextView>,
    request: u64,
    other: u64,
    context: ContextView,
)
    requires
        request != other,
    ensures
        slots.insert(request, context).contains_key(other) == slots.contains_key(other),
        slots.contains_key(other) ==> slots.insert(request, context)[other] == slots[other],
        slots.remove(request).contains_key(other) == slots.contains_key(other),
        slots.contains_key(other) ==> slots.remove(request)[other] == slots[other],
{
}

} // verus!
