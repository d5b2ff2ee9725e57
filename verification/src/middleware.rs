//! The guards that a host puts in front of its handlers.
//!
//! A guard holds the configuration and makes the decisions for one request
//! after the other; the host does what only it can do: it reads the
//! request, asks the token backend, answers or runs the handler. For one
//! request the host calls `begin`, then, as far as the steps ask for it,
//! `PendingToken::on_validity` with the backend's answer on the token and
//! `on_identity` with the identity that the backend resolved, and last
//! `decide` on the result.

use vstd::prelude::*;
use crate::auth::{
    auth_outcome, context_of, create_context, outcome_under, policy_consulted, start_auth,
    AuthOutcome, AuthResult, AuthStep, PendingIdentity,
};
use crate::request::{extract_token_from_request, extract_token_spec, RequestParts};
use crate::router::PathAuthConfig;
use crate::token::{
    optional_identity, optional_text, optional_token, SaTokenContext, TokenInfo, TokenValue,
};
use crate::validator::{AcceptAll, LoginIdValidator};

verus! {

/// The status of the answer to a request that is turned away.
pub const UNAUTHORIZED: u16 = 401;

/// What the guards share: the name under which a request carries its
/// token, as header, cookie or query parameter.
pub struct SaTokenState {
    pub token_name: String,
}

impl SaTokenState {
    /// The state for tokens carried under `token_name`.
    pub fn new(token_name: String) -> (state: Self)
        ensures
            state.token_name == token_name,
    {
        SaTokenState { token_name }
    }
}

impl Clone for SaTokenState {
    fn clone(&self) -> (copy: Self)
        ensures
            copy == *self,
    {
        SaTokenState { token_name: self.token_name.clone() }
    }
}

/// The answer to a request that is turned away.
pub struct Rejection {
    /// The status of the answer.
    pub status: u16,
    /// The body of the answer, a JSON object.
    pub body: String,
}

/// What the host gives the handler of a request that may pass.
pub struct Admission {
    /// The context to publish while the handler runs.
    pub context: SaTokenContext,
    /// The token to attach to the request.
    pub token: Option<TokenValue>,
    /// The login id to attach to the request.
    pub login_id: Option<String>,
}

/// What the host is to do with a request.
pub enum Decision {
    /// Answer with the rejection; the handler does not run.
    Reject(Rejection),
    /// Publish the context, run the handler, clear the context.
    Proceed(Admission),
}

/// The text that `serde_json` writes for the JSON object with the member
/// `number_key`, a number, and the member `text_key`, a string.
pub uninterp spec fn json_object_text(
    number_key: Seq<char>,
    number: u16,
    text_key: Seq<char>,
    text: Seq<char>,
) -> Seq<char>;

/// The body of the answer to a request that is turned away: the JSON
/// object `{"code":401,"message":<message>}`.
pub open spec fn unauthorized_body(message: Seq<char>) -> Seq<char> {
    json_object_text("code"@, UNAUTHORIZED, "message"@, message)
}

/// Has `serde_json` write a JSON object of two members, a number and a
/// string: the members are put into a `serde_json::Map` with `insert`, as
/// values made by `serde_json::Value::from`, and the object is written out
/// by `to_string`, which is the `Display` of `serde_json::Value` in its
/// compact form. The text that comes out is named `json_object_text`;
/// nothing more is claimed of it.
#[verifier::external_body]
fn write_json_object(number_key: &str, number: u16, text_key: &str, text: &str) -> (written: String)
    ensures
        written@ == json_object_text(number_key@, number, text_key@, text@),
{
    let mut object = serde_json::Map::new();
    object.insert(number_key.to_string(), serde_json::Value::from(number));
    object.insert(text_key.to_string(), serde_json::Value::from(text));
    serde_json::Value::Object(object).to_string()
}

impl Rejection {
    /// The answer to a request that is turned away, with `message` for
    /// the client.
    pub fn unauthorized(message: &str) -> (rejection: Self)
        ensures
            rejection.status == UNAUTHORIZED,
            rejection.body@ == unauthorized_body(message@),
    {
        Rejection {
            status: UNAUTHORIZED,
            body: write_json_object("code", UNAUTHORIZED, "message", message),
        }
    }
}

/// The token that the host attaches to a request that passes: the token
/// of the result; under a guard without a policy only a token that stands.
pub open spec fn attached_token(outcome: AuthOutcome, with_policy: bool) -> Option<Seq<char>> {
    if with_policy || outcome.is_valid {
        outcome.token
    } else {
        None
    }
}

/// The login id that the host attaches to a request that passes.
pub open spec fn attached_login_id(outcome: AuthOutcome) -> Option<Seq<char>> {
    match outcome.identity {
        Some(identity) => Some(identity.login_id),
        None => None,
    }
}

/// Whether `decision` is what follows from `outcome`: a rejection with
/// status 401 and the JSON body where the request is to be turned away,
/// else the admission with the context of the outcome.
pub open spec fn decision_follows(
    decision: Decision,
    outcome: AuthOutcome,
    with_policy: bool,
    message: Seq<char>,
) -> bool {
    match decision {
        Decision::Reject(rejection) => {
            &&& outcome.should_reject()
            &&& rejection.status == UNAUTHORIZED
            &&& rejection.body@ == unauthorized_body(message)
        },
        Decision::Proceed(admission) => {
            &&& !outcome.should_reject()
            &&& admission.context@ == context_of(outcome)
            &&& optional_token(admission.token) == attached_token(outcome, with_policy)
            &&& optional_text(admission.login_id) == attached_login_id(outcome)
        },
    }
}

/// Decides on a request from the result of its authentication.
fn decide_on(result: &AuthResult, with_policy: bool, message: &str) -> (decision: Decision)
    ensures
        decision_follows(decision, result@, with_policy, message@),
{
    if result.should_reject() {
        return Decision::Reject(Rejection::unauthorized(message));
    }
    let token = if with_policy || result.is_valid {
        match &result.token {
            Some(token) => Some(token.clone()),
            None => None,
        }
    } else {
        None
    };
    let login_id = match result.login_id() {
        Some(id) => Some(id.to_owned()),
        None => None,
    };
    Decision::Proceed(Admission { context: create_context(result), token, login_id })
}

/// Whether `step` is the first step for `request`: the token is the one
/// that the request carries under `token_name`, and without a token the
/// result is there at once.
pub open spec fn first_step(
    step: AuthStep,
    request: RequestParts,
    token_name: Seq<char>,
    need_auth: bool,
) -> bool {
    match step {
        AuthStep::Done(result) => {
            &&& extract_token_spec(request@, token_name) is None
            &&& result@ == auth_outcome(need_auth, None, false, None, false)
        },
        AuthStep::CheckToken(pending) => {
            &&& extract_token_spec(request@, token_name) == Some(pending.token_spec()@)
            &&& pending.need_auth_spec() == need_auth
        },
    }
}

/// A guard that authenticates where a policy asks for it, and lets every
/// request pass where it has no policy.
pub struct SaTokenMiddleware<V: LoginIdValidator = AcceptAll> {
    pub state: SaTokenState,
    /// The policy, where the guard has one.
    pub path_config: Option<PathAuthConfig<V>>,
}

impl SaTokenMiddleware<AcceptAll> {
    /// A guard without a policy: it turns no request away, and gives the
    /// handler the identity of each request that carries a valid token.
    pub fn new(state: SaTokenState) -> (guard: Self)
        ensures
            guard.state == state,
            guard.path_config is None,
    {
        SaTokenMiddleware { state, path_config: None }
    }
}

impl<V: LoginIdValidator> SaTokenMiddleware<V> {
    /// A guard with a policy.
    pub fn with_path_auth(state: SaTokenState, config: PathAuthConfig<V>) -> (guard: Self)
        ensures
            guard.state == state,
            guard.path_config == Some(config),
    {
        SaTokenMiddleware { state, path_config: Some(config) }
    }

    /// Whether `path` needs authentication under this guard.
    pub open spec fn need_auth_spec(&self, path: Seq<char>) -> bool {
        match self.path_config {
            Some(config) => config.check_spec(path),
            None => false,
        }
    }

    /// Whether `verdict` is an answer that this guard's policy can give
    /// for `login_id`; without a policy every login id is accepted.
    pub open spec fn admits_login(&self, login_id: Seq<char>, verdict: bool) -> bool {
        match self.path_config {
            Some(config) => config.validator_spec().admits(login_id, verdict),
            None => verdict,
        }
    }

    /// Takes up a request: finds its token and decides whether its path
    /// needs authentication.
    pub fn begin(&self, request: &RequestParts) -> (step: AuthStep)
        ensures
            first_step(step, *request, self.state.token_name@, self.need_auth_spec(request.path@)),
    {
        let token = extract_token_from_request(request, self.state.token_name.as_str());
        let need_auth = match &self.path_config {
            Some(config) => config.check(request.path.as_str()),
            None => false,
        };
        start_auth(need_auth, token)
    }

    /// Ends the authentication of a request with what the backend resolved
    /// its token to; `None` where it could not.
    pub fn on_identity(&self, pending: PendingIdentity, identity: Option<TokenInfo>) -> (result:
        AuthResult)
        ensures
            result.token == Some(pending.token_spec()),
            result.token_info == identity,
            exists|verdict: bool|
                {
                    &&& policy_consulted(
                        pending.need_auth_spec(),
                        Some(pending.token_spec()@),
                        true,
                        optional_identity(identity),
                    ) ==> self.admits_login(identity->0.login_id@, verdict)
                    &&& #[trigger] auth_outcome(
                        pending.need_auth_spec(),
                        Some(pending.token_spec()@),
                        true,
                        optional_identity(identity),
                        verdict,
                    ) == result@
                },
    {
        match &self.path_config {
            Some(config) => {
                let result = pending.on_identity(identity, config);
                let ghost verdict = choose|verdict: bool| #[trigger]
                    outcome_under(
                        config,
                        pending.need_auth_spec(),
                        Some(pending.token_spec()@),
                        true,
                        optional_identity(identity),
                        verdict,
                        result@,
                    );
                assert(auth_outcome(
                    pending.need_auth_spec(),
                    Some(pending.token_spec()@),
                    true,
                    optional_identity(identity),
                    verdict,
                ) == result@);
                result
            },
            None => {
                let open_policy = PathAuthConfig::new();
                let result = pending.on_identity(identity, &open_policy);
                let ghost verdict = choose|verdict: bool| #[trigger]
                    outcome_under(
                        &open_policy,
                        pending.need_auth_spec(),
                        Some(pending.token_spec()@),
                        true,
                        optional_identity(identity),
                        verdict,
                        result@,
                    );
                assert(auth_outcome(
                    pending.need_auth_spec(),
                    Some(pending.token_spec()@),
                    true,
                    optional_identity(identity),
                    verdict,
                ) == result@);
                result
            },
        }
    }

    /// Decides on a request from the result of its authentication:
    /// rejection with status 401 and `message` in a JSON body, or
    /// admission with the context for the handler.
    pub fn decide(&self, result: &AuthResult, message: &str) -> (decision: Decision)
        ensures
            decision_follows(decision, result@, self.path_config is Some, message@),
    {
        decide_on(result, self.path_config.is_some(), message)
    }
}

/// The recipe of a guard: a host that builds one guard for each service
/// it wraps keeps the configuration in a layer and has it make the guards.
pub struct SaTokenLayer<V: LoginIdValidator = AcceptAll> {
    state: SaTokenState,
    path_config: Option<PathAuthConfig<V>>,
}

/// Whether `guard` has the configuration of a layer with this state and
/// this policy: the same token name, the same patterns, and a validator
/// that is a clone of the layer's.
pub open spec fn configured_alike<V: LoginIdValidator + Clone>(
    guard: SaTokenMiddleware<V>,
    state: SaTokenState,
    path_config: Option<PathAuthConfig<V>>,
) -> bool {
    &&& guard.state == state
    &&& match path_config {
        Some(config) => {
            &&& guard.path_config is Some
            &&& guard.path_config->0.required_spec() == config.required_spec()
            &&& guard.path_config->0.exempt_spec() == config.exempt_spec()
            &&& cloned(config.validator_spec(), guard.path_config->0.validator_spec())
        },
        None => guard.path_config is None,
    }
}

impl SaTokenLayer<AcceptAll> {
    /// The recipe of a guard without a policy.
    pub fn new(state: SaTokenState) -> (layer: Self)
        ensures
            layer.state_spec() == state,
            layer.path_config_spec() is None,
    {
        SaTokenLayer { state, path_config: None }
    }
}

impl<V: LoginIdValidator> SaTokenLayer<V> {
    /// The recipe of a guard with a policy.
    pub fn with_path_auth(state: SaTokenState, config: PathAuthConfig<V>) -> (layer: Self)
        ensures
            layer.state_spec() == state,
            layer.path_config_spec() == Some(config),
    {
        SaTokenLayer { state, path_config: Some(config) }
    }

    /// What the guards of this layer share.
    pub closed spec fn state_spec(&self) -> SaTokenState {
        self.state
    }

    /// The policy of the guards of this layer, where they have one.
    pub closed spec fn path_config_spec(&self) -> Option<PathAuthConfig<V>> {
        self.path_config
    }

    /// Makes a guard with the configuration of this layer.
    pub fn layer(&self) -> (guard: SaTokenMiddleware<V>) where V: Clone
        ensures
            configured_alike(guard, self.state_spec(), self.path_config_spec()),
    {
        let path_config = match &self.path_config {
            Some(config) => Some(config.clone()),
            None => None,
        };
        SaTokenMiddleware { state: self.state.clone(), path_config }
    }
}

/// A guard that lets a request pass only with a valid token whose
/// identity the backend can resolve, whatever its path.
pub struct SaCheckLoginMiddleware {
    pub state: SaTokenState,
}

impl SaCheckLoginMiddleware {
    /// A guard that asks a login of every request.
    pub fn new(state: SaTokenState) -> (guard: Self)
        ensures
            guard.state == state,
    {
        SaCheckLoginMiddleware { state }
    }

    /// Takes up a request: finds its token. Every path needs
    /// authentication.
    pub fn begin(&self, request: &RequestParts) -> (step: AuthStep)
        ensures
            first_step(step, *request, self.state.token_name@, true),
    {
        let token = extract_token_from_request(request, self.state.token_name.as_str());
        start_auth(true, token)
    }

    /// Ends the authentication of a request with what the backend resolved
    /// its token to; `None` where it could not. Every login id is
    /// accepted.
    pub fn on_identity(&self, pending: PendingIdentity, identity: Option<TokenInfo>) -> (result:
        AuthResult)
        ensures
            result.token == Some(pending.token_spec()),
            result.token_info == identity,
            result@ == auth_outcome(
                pending.need_auth_spec(),
                Some(pending.token_spec()@),
                true,
                optional_identity(identity),
                true,
            ),
    {
        let open_policy = PathAuthConfig::new();
        let result = pending.on_identity(identity, &open_policy);
        let ghost verdict = choose|verdict: bool| #[trigger]
            outcome_under(
                &open_policy,
                pending.need_auth_spec(),
                Some(pending.token_spec()@),
                true,
                optional_identity(identity),
                verdict,
                result@,
            );
        assert(result@ == auth_outcome(
            pending.need_auth_spec(),
            Some(pending.token_spec()@),
            true,
            optional_identity(identity),
            verdict,
        ));
        result
    }

    /// Decides on a request from the result of its authentication.
    pub fn decide(&self, result: &AuthResult, message: &str) -> (decision: Decision)
        ensures
            decision_follows(decision, result@, true, message@),
    {
        decide_on(result, true, message)
    }
}

} // verus!
