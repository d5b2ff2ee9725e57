//! The authentication pipeline: policy, token validity and identity are
//! combined into one result for each request.
//!
//! A token backend may answer slowly, so the pipeline is offered in two
//! forms. `begin_auth`, `PendingToken::on_validity` and
//! `PendingIdentity::on_identity` are the decisions alone: a host asks its
//! backend between the steps, in whatever way it can. `process_auth` runs
//! the same steps against a backend that answers at once.

use vstd::prelude::*;
use crate::router::PathAuthConfig;
use crate::token::{
    anonymous_context, optional_identity, optional_text, optional_token, ContextView, Identity,
    SaTokenContext, TokenInfo, TokenValue,
};
use crate::validator::LoginIdValidator;

verus! {

/// The decision on one request.
pub struct AuthResult {
    /// Whether the path of the request needs authentication.
    pub need_auth: bool,
    /// The token that the request carried.
    pub token: Option<TokenValue>,
    /// What the backend resolved the token to.
    pub token_info: Option<TokenInfo>,
    /// Whether the token stands: the backend called it valid and, on a path
    /// that needs authentication, its identity is known and acceptable.
    pub is_valid: bool,
}

/// The mathematical value of an `AuthResult`.
pub struct AuthOutcome {
    pub need_auth: bool,
    pub token: Option<Seq<char>>,
    pub identity: Option<Identity>,
    pub is_valid: bool,
}

impl AuthOutcome {
    /// Whether the request is to be turned away: its path needs
    /// authentication, and its token is missing or does not stand.
    pub open spec fn should_reject(self) -> bool {
        self.need_auth && (!self.is_valid || self.token is None)
    }
}

impl View for AuthResult {
    type V = AuthOutcome;

    open spec fn view(&self) -> AuthOutcome {
        AuthOutcome {
            need_auth: self.need_auth,
            token: optional_token(self.token),
            identity: optional_identity(self.token_info),
            is_valid: self.is_valid,
        }
    }
}

/// The outcome of the pipeline, given what each party answered.
///
/// `raw_valid` is the backend's answer on the token, `identity` what it
/// resolved the token to, and `verdict` the policy's answer on the login id.
/// Without a token nothing is valid. An identity is kept only for a valid
/// token. On a path that needs authentication a valid token stands only
/// with an identity that the policy accepts; elsewhere the policy is not
/// asked.
pub open spec fn auth_outcome(
    need_auth: bool,
    token: Option<Seq<char>>,
    raw_valid: bool,
    identity: Option<Identity>,
    verdict: bool,
) -> AuthOutcome {
    if token is None {
        AuthOutcome { need_auth, token: None, identity: None, is_valid: false }
    } else if !raw_valid {
        AuthOutcome { need_auth, token, identity: None, is_valid: false }
    } else {
        AuthOutcome {
            need_auth,
            token,
            identity,
            is_valid: if need_auth {
                identity is Some && verdict
            } else {
                true
            },
        }
    }
}

/// Whether the pipeline asks the policy about the login id: only for a
/// valid token with a known identity, on a path that needs authentication.
pub open spec fn policy_consulted(
    need_auth: bool,
    token: Option<Seq<char>>,
    raw_valid: bool,
    identity: Option<Identity>,
) -> bool {
    need_auth && token is Some && raw_valid && identity is Some
}

/// Whether `outcome` is what the pipeline gives for these answers, `verdict`
/// being an answer of the policy where the policy is asked.
pub open spec fn outcome_under<V: LoginIdValidator>(
    config: &PathAuthConfig<V>,
    need_auth: bool,
    token: Option<Seq<char>>,
    raw_valid: bool,
    identity: Option<Identity>,
    verdict: bool,
    outcome: AuthOutcome,
) -> bool {
    &&& policy_consulted(need_auth, token, raw_valid, identity)
        ==> config.validator_spec().admits(identity->0.login_id, verdict)
    &&& outcome == auth_outcome(need_auth, token, raw_valid, identity, verdict)
}

impl AuthResult {
    /// Whether the request is to be turned away.
    pub fn should_reject(&self) -> (reject: bool)
        ensures
            reject == self@.should_reject(),
    {
        self.need_auth && (!self.is_valid || self.token.is_none())
    }

    /// The login id that the token was resolved to.
    pub fn login_id(&self) -> (login_id: Option<&str>)
        ensures
            match login_id {
                Some(id) => self@.identity is Some && id@ == self@.identity->0.login_id,
                None => self@.identity is None,
            },
    {
        match &self.token_info {
            Some(info) => Some(info.login_id.as_str()),
            None => None,
        }
    }
}

/// A request whose token waits for the backend's answer on its validity.
pub struct PendingToken {
    need_auth: bool,
    token: TokenValue,
}

/// A request whose valid token waits for the backend to resolve it.
pub struct PendingIdentity {
    need_auth: bool,
    token: TokenValue,
}

/// How far the pipeline came without the backend.
pub enum AuthStep {
    /// The request carried no token: this is the result.
    Done(AuthResult),
    /// The backend is to say whether the token is valid.
    CheckToken(PendingToken),
}

/// How far the pipeline came with the backend's answer on validity.
pub enum IdentityStep {
    /// The token is invalid: this is the result.
    Done(AuthResult),
    /// The backend is to resolve the token to an identity.
    Resolve(PendingIdentity),
}

/// Starts the pipeline for a request of which it is known whether its path
/// needs authentication: decides whether there is a token to ask the
/// backend about.
pub fn start_auth(need_auth: bool, token_str: Option<String>) -> (step: AuthStep)
    ensures
        match step {
            AuthStep::Done(result) => token_str is None && result@ == auth_outcome(
                need_auth,
                None,
                false,
                None,
                false,
            ),
            AuthStep::CheckToken(pending) => token_str is Some && pending.token_spec()@
                == token_str->0@ && pending.need_auth_spec() == need_auth,
        },
{
    match token_str {
        None => AuthStep::Done(
            AuthResult { need_auth, token: None, token_info: None, is_valid: false },
        ),
        Some(text) => AuthStep::CheckToken(
            PendingToken { need_auth, token: TokenValue::new(text) },
        ),
    }
}

/// Starts the pipeline for one request: decides whether the path needs
/// authentication and whether there is a token to ask the backend about.
pub fn begin_auth<V: LoginIdValidator>(
    path: &str,
    token_str: Option<String>,
    config: &PathAuthConfig<V>,
) -> (step: AuthStep)
    ensures
        match step {
            AuthStep::Done(result) => token_str is None && result@ == auth_outcome(
                config.check_spec(path@),
                None,
                false,
                None,
                false,
            ),
            AuthStep::CheckToken(pending) => token_str is Some && pending.token_spec()@
                == token_str->0@ && pending.need_auth_spec() == config.check_spec(path@),
        },
{
    start_auth(config.check(path), token_str)
}

impl PendingToken {
    /// Whether the path of the request needs authentication.
    pub closed spec fn need_auth_spec(&self) -> bool {
        self.need_auth
    }

    /// The token of the request.
    pub closed spec fn token_spec(&self) -> TokenValue {
        self.token
    }

    /// The token that the backend is to judge.
    pub fn token(&self) -> (token: &TokenValue)
        ensures
            *token == self.token_spec(),
    {
        &self.token
    }

    /// Goes on with the backend's answer on the validity of the token.
    pub fn on_validity(self, valid: bool) -> (step: IdentityStep)
        ensures
            match step {
                IdentityStep::Done(result) => !valid && result@ == auth_outcome(
                    self.need_auth_spec(),
                    Some(self.token_spec()@),
                    false,
                    None,
                    false,
                ) && result.token == Some(self.token_spec()),
                IdentityStep::Resolve(pending) => valid && pending.token_spec()
                    == self.token_spec() && pending.need_auth_spec() == self.need_auth_spec(),
            },
    {
        if valid {
            IdentityStep::Resolve(PendingIdentity { need_auth: self.need_auth, token: self.token })
        } else {
            IdentityStep::Done(
                AuthResult {
                    need_auth: self.need_auth,
                    token: Some(self.token),
                    token_info: None,
                    is_valid: false,
                },
            )
        }
    }
}

impl PendingIdentity {
    /// Whether the path of the request needs authentication.
    pub closed spec fn need_auth_spec(&self) -> bool {
        self.need_auth
    }

    /// The token of the request.
    pub closed spec fn token_spec(&self) -> TokenValue {
        self.token
    }

    /// The token that the backend is to resolve.
    pub fn token(&self) -> (token: &TokenValue)
        ensures
            *token == self.token_spec(),
    {
        &self.token
    }

    /// Ends the pipeline with what the backend resolved the token to;
    /// `None` where it could not. The policy is asked about the login id
    /// only on a path that needs authentication.
    pub fn on_identity<V: LoginIdValidator>(
        self,
        identity: Option<TokenInfo>,
        config: &PathAuthConfig<V>,
    ) -> (result: AuthResult)
        ensures
            result.token == Some(self.token_spec()),
            result.token_info == identity,
            exists|verdict: bool| #[trigger]
                outcome_under(
                    config,
                    self.need_auth_spec(),
                    Some(self.token_spec()@),
                    true,
                    optional_identity(identity),
                    verdict,
                    result@,
                ),
    {
        let verdict = if self.need_auth {
            match &identity {
                Some(info) => config.validate_login_id(info.login_id.as_str()),
                None => false,
            }
        } else {
            true
        };
        let result = AuthResult {
            need_auth: self.need_auth,
            token: Some(self.token),
            token_info: identity,
            is_valid: verdict,
        };
        assert(outcome_under(
            config,
            self.need_auth_spec(),
            Some(self.token_spec()@),
            true,
            optional_identity(identity),
            verdict,
            result@,
        ));
        result
    }
}

/// A token backend that answers at once: a function that says whether a
/// token is valid, and one that resolves a valid token to its identity.
pub struct TokenValidator<C: Fn(&TokenValue) -> bool, R: Fn(&TokenValue) -> Option<TokenInfo>> {
    is_valid: C,
    resolve: R,
}

impl<C: Fn(&TokenValue) -> bool, R: Fn(&TokenValue) -> Option<TokenInfo>> TokenValidator<C, R> {
    #[verifier::type_invariant]
    spec fn callable_everywhere(&self) -> bool {
        &&& forall|token: &TokenValue| call_requires(self.is_valid, (token,))
        &&& forall|token: &TokenValue| call_requires(self.resolve, (token,))
    }

    /// Whether `valid` is an answer that the backend can give on the
    /// validity of `token`.
    pub closed spec fn answers_validity(&self, token: TokenValue, valid: bool) -> bool {
        call_ensures(self.is_valid, (&token,), valid)
    }

    /// Whether `identity` is an answer that the backend can give when it
    /// resolves `token`.
    pub closed spec fn answers_identity(
        &self,
        token: TokenValue,
        identity: Option<TokenInfo>,
    ) -> bool {
        call_ensures(self.resolve, (&token,), identity)
    }

    /// Makes a backend of two functions that can be called on every token.
    pub fn new(is_valid: C, resolve: R) -> (validator: Self)
        requires
            forall|token: &TokenValue| call_requires(is_valid, (token,)),
            forall|token: &TokenValue| call_requires(resolve, (token,)),
        ensures
            forall|token: TokenValue, valid: bool| #[trigger]
                validator.answers_validity(token, valid) == call_ensures(
                    is_valid,
                    (&token,),
                    valid,
                ),
            forall|token: TokenValue, identity: Option<TokenInfo>| #[trigger]
                validator.answers_identity(token, identity) == call_ensures(
                    resolve,
                    (&token,),
                    identity,
                ),
    {
        TokenValidator { is_valid, resolve }
    }

    /// Asks the backend whether `token` is valid.
    pub fn is_valid(&self, token: &TokenValue) -> (valid: bool)
        ensures
            self.answers_validity(*token, valid),
    {
        proof {
            use_type_invariant(self);
        }
        (self.is_valid)(token)
    }

    /// Asks the backend for the identity behind `token`; `None` where it
    /// cannot tell.
    pub fn resolve(&self, token: &TokenValue) -> (identity: Option<TokenInfo>)
        ensures
            self.answers_identity(*token, identity),
    {
        proof {
            use_type_invariant(self);
        }
        (self.resolve)(token)
    }
}

/// Whether `raw_valid` and `identity` are answers that the backend can give
/// on `token`: it is asked about validity where there is a token, and for
/// the identity where it called the token valid.
pub open spec fn backend_answered<
    C: Fn(&TokenValue) -> bool,
    R: Fn(&TokenValue) -> Option<TokenInfo>,
>(
    validator: &TokenValidator<C, R>,
    token: Option<TokenValue>,
    raw_valid: bool,
    identity: Option<TokenInfo>,
) -> bool {
    &&& token is Some ==> validator.answers_validity(token->0, raw_valid)
    &&& token is Some && raw_valid ==> validator.answers_identity(token->0, identity)
}

/// Whether `result` is what the pipeline gives when the backend answers
/// `raw_valid` and `identity` and the policy answers `verdict`, each of them
/// an answer that its party can give where it is asked.
pub open spec fn explained_by<
    V: LoginIdValidator,
    C: Fn(&TokenValue) -> bool,
    R: Fn(&TokenValue) -> Option<TokenInfo>,
>(
    config: &PathAuthConfig<V>,
    validator: &TokenValidator<C, R>,
    result: AuthResult,
    raw_valid: bool,
    identity: Option<TokenInfo>,
    verdict: bool,
) -> bool {
    &&& backend_answered(validator, result.token, raw_valid, identity)
    &&& outcome_under(
        config,
        result.need_auth,
        optional_token(result.token),
        raw_valid,
        optional_identity(identity),
        verdict,
        result@,
    )
}

/// Runs the pipeline for one request against a backend that answers at
/// once.
///
/// The backend is asked about validity only where the request carries a
/// token, and for the identity only where it called the token valid. What
/// comes out is `auth_outcome` of the answers that were given.
pub fn process_auth<
    V: LoginIdValidator,
    C: Fn(&TokenValue) -> bool,
    R: Fn(&TokenValue) -> Option<TokenInfo>,
>(
    path: &str,
    token_str: Option<String>,
    config: &PathAuthConfig<V>,
    validator: &TokenValidator<C, R>,
) -> (result: AuthResult)
    ensures
        result.need_auth == config.check_spec(path@),
        optional_token(result.token) == optional_text(token_str),
        exists|raw_valid: bool, identity: Option<TokenInfo>, verdict: bool| #[trigger]
            explained_by(config, validator, result, raw_valid, identity, verdict),
{
    match begin_auth(path, token_str, config) {
        AuthStep::Done(result) => {
            assert(explained_by(config, validator, result, false, None, false));
            result
        },
        AuthStep::CheckToken(pending) => {
            let valid = validator.is_valid(pending.token());
            match pending.on_validity(valid) {
                IdentityStep::Done(result) => {
                    assert(explained_by(config, validator, result, false, None, false));
                    result
                },
                IdentityStep::Resolve(waiting) => {
                    let identity = validator.resolve(waiting.token());
                    let result = waiting.on_identity(identity, config);
                    let ghost verdict = choose|verdict: bool| #[trigger]
                        outcome_under(
                            config,
                            waiting.need_auth_spec(),
                            Some(waiting.token_spec()@),
                            true,
                            optional_identity(identity),
                            verdict,
                            result@,
                        );
                    assert(explained_by(config, validator, result, true, identity, verdict));
                    result
                },
            }
        },
    }
}

/// The context that a result gives the handler: token, identity and login
/// id where the result has both a token and an identity, else nothing.
pub open spec fn context_of(outcome: AuthOutcome) -> ContextView {
    if outcome.token is Some && outcome.identity is Some {
        ContextView {
            token: outcome.token,
            identity: outcome.identity,
            login_id: Some(outcome.identity->0.login_id),
        }
    } else {
        anonymous_context()
    }
}

/// Makes the context of a request from the result of its authentication.
pub fn create_context(result: &AuthResult) -> (context: SaTokenContext)
    ensures
        context@ == context_of(result@),
{
    let mut context = SaTokenContext::new();
    match (&result.token, &result.token_info) {
        (Some(token), Some(info)) => {
            context.token = Some(token.clone());
            context.token_info = Some(info.clone());
            context.login_id = Some(info.login_id.clone());
        },
        _ => {},
    }
    context
}

/// A request without a token is turned away on every path that needs
/// authentication.
pub proof fn lemma_missing_token_is_rejected(
    raw_valid: bool,
    identity: Option<Identity>,
    verdict: bool,
)
    ensures
        auth_outcome(true, None, raw_valid, identity, verdict).should_reject(),
{
}

/// On a path that needs authentication a request is turned away when the
/// policy rejects the login id, although the backend called the token
/// valid.
pub proof fn lemma_rejected_identity_is_rejected(token: Seq<char>, identity: Option<Identity>)
    ensures
        auth_outcome(true, Some(token), true, identity, false).should_reject(),
{
}

/// On a path that needs no authentication a request with a valid token is
/// never turned away, whatever the policy would say of the login id.
pub proof fn lemma_valid_token_passes_open_path(
    token: Seq<char>,
    identity: Option<Identity>,
    verdict: bool,
)
    ensures
        !auth_outcome(false, Some(token), true, identity, verdict).should_reject(),
        auth_outcome(false, Some(token), true, identity, verdict) == auth_outcome(
            false,
            Some(token),
            true,
            identity,
            !verdict,
        ),
{
}

/// No request is turned away on a path that needs no authentication.
pub proof fn lemma_open_path_never_rejects(outcome: AuthOutcome)
    requires
        !outcome.need_auth,
    ensures
        !outcome.should_reject(),
{
}

} // verus!
