//! The items that most hosts need, under one path.

pub use crate::auth::{
    begin_auth, create_context, process_auth, start_auth, AuthResult, AuthStep, IdentityStep,
    PendingIdentity, PendingToken, TokenValidator,
};
pub use crate::context::AmbientContext;
pub use crate::middleware::{
    Admission, Decision, Rejection, SaCheckLoginMiddleware, SaTokenLayer, SaTokenMiddleware,
    SaTokenState, UNAUTHORIZED,
};
pub use crate::request::{extract_token_from_request, RequestParts};
pub use crate::router::{match_any, match_path, need_auth, PathAuthConfig};
pub use crate::token::{SaTokenContext, TokenInfo, TokenValue};
pub use crate::validator::{AcceptAll, LoginIdValidator, Predicate};
