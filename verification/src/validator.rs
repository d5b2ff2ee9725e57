//! The identity predicate of a policy: a capability with one method, which
//! says whether a login id is acceptable.

use vstd::prelude::*;

verus! {

/// A predicate on login ids that a deployment adds to token validity, such
/// as a tenant or format constraint.
pub trait LoginIdValidator {
    /// Whether `verdict` is an answer that this validator can give for
    /// `login_id`. A validator that says nothing of itself can give any
    /// answer.
    open spec fn admits(&self, login_id: Seq<char>, verdict: bool) -> bool {
        true
    }

    /// Says whether `login_id` is acceptable.
    fn validate(&self, login_id: &str) -> (verdict: bool)
        ensures
            self.admits(login_id@, verdict),
    ;
}

/// The validator of a policy for which none was configured: it accepts every
/// login id.
#[derive(Clone, Copy)]
pub struct AcceptAll;

impl LoginIdValidator for AcceptAll {
    open spec fn admits(&self, login_id: Seq<char>, verdict: bool) -> bool {
        verdict
    }

    fn validate(&self, login_id: &str) -> (verdict: bool) {
        true
    }
}

/// A validator made of a function from login id to `bool`.
pub struct Predicate<F: Fn(&str) -> bool> {
    function: F,
}

impl<F: Fn(&str) -> bool> Predicate<F> {
    #[verifier::type_invariant]
    spec fn callable_everywhere(&self) -> bool {
        forall|login_id: &str| call_requires(self.function, (login_id,))
    }

    /// The function that this validator calls.
    pub closed spec fn function_spec(&self) -> F {
        self.function
    }

    /// Makes a validator of a function that can be called on every string.
    pub fn new(function: F) -> (predicate: Self)
        requires
            forall|login_id: &str| call_requires(function, (login_id,)),
        ensures
            predicate.function_spec() == function,
    {
        Predicate { function }
    }
}

impl<F: Fn(&str) -> bool + Copy> Clone for Predicate<F> {
    fn clone(&self) -> (copy: Self)
        ensures
            copy == *self,
    {
        proof {
            use_type_invariant(self);
        }
        Predicate { function: self.function }
    }
}

impl<F: Fn(&str) -> bool> LoginIdValidator for Predicate<F> {
    open spec fn admits(&self, login_id: Seq<char>, verdict: bool) -> bool {
        exists|id: &str| id@ == login_id && call_ensures(self.function_spec(), (id,), verdict)
    }

    fn validate(&self, login_id: &str) -> (verdict: bool) {
        proof {
            use_type_invariant(self);
        }
        let verdict = (self.function)(login_id);
        assert(login_id@ == login_id@ && call_ensures(
            self.function_spec(),
            (login_id,),
            verdict,
        ));
        verdict
    }
}

} // verus!
