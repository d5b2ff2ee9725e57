use sa_token_guard::auth::{
    begin_auth, create_context, process_auth, start_auth, AuthResult, AuthStep, IdentityStep,
    TokenValidator,
};
use sa_token_guard::router::PathAuthConfig;
use sa_token_guard::token::{SaTokenContext, TokenInfo, TokenValue};
use sa_token_guard::validator::Predicate;

fn info(login_id: &str) -> TokenInfo {
    TokenInfo { login_id: login_id.to_string(), login_type: "default".to_string(), device: None }
}

fn protected() -> PathAuthConfig {
    PathAuthConfig::new().include_paths(vec!["/api/**".to_string()]).exclude(vec!["/api/login".to_string()])
}

fn token_of(result: &AuthResult) -> Option<String> {
    result.token.as_ref().map(|t| t.as_str().to_string())
}

#[test]
fn should_reject_truth_table() {
    for need_auth in [false, true] {
        for has_token in [false, true] {
            for is_valid in [false, true] {
                let result = AuthResult {
                    need_auth,
                    token: if has_token { Some(TokenValue::new("t".to_string())) } else { None },
                    token_info: None,
                    is_valid,
                };
                assert_eq!(result.should_reject(), need_auth && (!is_valid || !has_token));
            }
        }
    }
}

#[test]
fn login_id_comes_from_the_identity() {
    let mut result = AuthResult { need_auth: true, token: None, token_info: None, is_valid: false };
    assert_eq!(result.login_id(), None);
    result.token_info = Some(info("alice"));
    assert_eq!(result.login_id(), Some("alice"));
}

#[test]
fn missing_token_on_protected_path_is_rejected() {
    let backend = TokenValidator::new(|_: &TokenValue| true, |_: &TokenValue| Some(info("alice")));
    let result = process_auth("/api/user", None, &protected(), &backend);
    assert!(result.need_auth);
    assert!(result.token.is_none());
    assert!(result.token_info.is_none());
    assert!(!result.is_valid);
    assert!(result.should_reject());
}

#[test]
fn missing_token_on_open_path_passes() {
    let backend = TokenValidator::new(|_: &TokenValue| true, |_: &TokenValue| Some(info("alice")));
    let result = process_auth("/home", None, &protected(), &backend);
    assert!(!result.need_auth);
    assert!(!result.is_valid);
    assert!(!result.should_reject());
}

#[test]
fn backend_is_not_asked_without_a_token() {
    let backend = TokenValidator::new(
        |_: &TokenValue| -> bool { panic!("asked") },
        |_: &TokenValue| -> Option<TokenInfo> { panic!("asked") },
    );
    let result = process_auth("/api/user", None, &protected(), &backend);
    assert!(result.should_reject());
}

#[test]
fn valid_token_with_identity_passes_protected_path() {
    let backend = TokenValidator::new(
        |t: &TokenValue| t.as_str() == "good",
        |_: &TokenValue| Some(info("alice")),
    );
    let result = process_auth("/api/user", Some("good".to_string()), &protected(), &backend);
    assert!(result.need_auth);
    assert_eq!(token_of(&result), Some("good".to_string()));
    assert_eq!(result.login_id(), Some("alice"));
    assert!(result.is_valid);
    assert!(!result.should_reject());
}

#[test]
fn invalid_token_is_rejected_and_not_resolved() {
    let backend = TokenValidator::new(
        |t: &TokenValue| t.as_str() == "good",
        |_: &TokenValue| -> Option<TokenInfo> { panic!("resolved an invalid token") },
    );
    let result = process_auth("/api/user", Some("bad".to_string()), &protected(), &backend);
    assert_eq!(token_of(&result), Some("bad".to_string()));
    assert!(result.token_info.is_none());
    assert!(!result.is_valid);
    assert!(result.should_reject());
}

#[test]
fn invalid_token_on_open_path_is_not_rejected() {
    let backend = TokenValidator::new(|_: &TokenValue| false, |_: &TokenValue| None);
    let result = process_auth("/home", Some("bad".to_string()), &protected(), &backend);
    assert!(!result.need_auth);
    assert!(!result.is_valid);
    assert!(!result.should_reject());
}

#[test]
fn unresolved_identity_degrades_to_rejection_on_protected_path() {
    let backend = TokenValidator::new(|_: &TokenValue| true, |_: &TokenValue| None);
    let result = process_auth("/api/user", Some("good".to_string()), &protected(), &backend);
    assert!(result.token_info.is_none());
    assert!(!result.is_valid);
    assert!(result.should_reject());
}

#[test]
fn unresolved_identity_keeps_validity_on_open_path() {
    let backend = TokenValidator::new(|_: &TokenValue| true, |_: &TokenValue| None);
    let result = process_auth("/home", Some("good".to_string()), &protected(), &backend);
    assert!(result.token_info.is_none());
    assert!(result.is_valid);
    assert!(!result.should_reject());
}

#[test]
fn rejected_identity_is_rejected_despite_valid_token() {
    let config = PathAuthConfig::new()
        .include_paths(vec!["/api/**".to_string()])
        .validator(Predicate::new(|id: &str| id.starts_with("tenant_a:")));
    let backend = TokenValidator::new(|_: &TokenValue| true, |_: &TokenValue| Some(info("tenant_b:bob")));
    let result = process_auth("/api/user", Some("good".to_string()), &config, &backend);
    assert!(result.need_auth);
    assert_eq!(result.login_id(), Some("tenant_b:bob"));
    assert!(!result.is_valid);
    assert!(result.should_reject());
}

#[test]
fn accepted_identity_passes() {
    let config = PathAuthConfig::new()
        .include_paths(vec!["/api/**".to_string()])
        .validator(Predicate::new(|id: &str| id.starts_with("tenant_a:")));
    let backend = TokenValidator::new(|_: &TokenValue| true, |_: &TokenValue| Some(info("tenant_a:al")));
    let result = process_auth("/api/user", Some("good".to_string()), &config, &backend);
    assert!(result.is_valid);
    assert!(!result.should_reject());
}

#[test]
fn predicate_is_not_consulted_on_open_path() {
    let config = PathAuthConfig::new()
        .include_paths(vec!["/api/**".to_string()])
        .validator(Predicate::new(|_: &str| -> bool { panic!("consulted") }));
    let backend = TokenValidator::new(|_: &TokenValue| true, |_: &TokenValue| Some(info("bob")));
    let result = process_auth("/home", Some("good".to_string()), &config, &backend);
    assert!(!result.need_auth);
    assert!(result.is_valid);
    assert_eq!(result.login_id(), Some("bob"));
    assert!(!result.should_reject());
}

#[test]
fn rejecting_predicate_does_not_reject_on_open_path() {
    let config = PathAuthConfig::new()
        .include_paths(vec!["/api/**".to_string()])
        .validator(Predicate::new(|_: &str| false));
    let backend = TokenValidator::new(|_: &TokenValue| true, |_: &TokenValue| Some(info("bob")));
    let result = process_auth("/home", Some("good".to_string()), &config, &backend);
    assert!(result.is_valid);
    assert!(!result.should_reject());
}

#[test]
fn exempt_path_needs_no_token() {
    let backend = TokenValidator::new(|_: &TokenValue| false, |_: &TokenValue| None);
    let result = process_auth("/api/login", None, &protected(), &backend);
    assert!(!result.need_auth);
    assert!(!result.should_reject());
}

#[test]
fn steps_without_token_end_at_once() {
    match begin_auth("/api/user", None, &protected()) {
        AuthStep::Done(result) => {
            assert!(result.need_auth);
            assert!(result.should_reject());
        }
        AuthStep::CheckToken(_) => panic!("no token to check"),
    }
    match start_auth(false, None) {
        AuthStep::Done(result) => assert!(!result.need_auth && !result.is_valid),
        AuthStep::CheckToken(_) => panic!("no token to check"),
    }
}

#[test]
fn steps_ask_for_validity_then_identity() {
    let config = protected();
    let pending = match begin_auth("/api/user", Some("tok".to_string()), &config) {
        AuthStep::CheckToken(pending) => pending,
        AuthStep::Done(_) => panic!("token not taken up"),
    };
    assert_eq!(pending.token().as_str(), "tok");
    let waiting = match pending.on_validity(true) {
        IdentityStep::Resolve(waiting) => waiting,
        IdentityStep::Done(_) => panic!("valid token not resolved"),
    };
    assert_eq!(waiting.token().as_str(), "tok");
    let result = waiting.on_identity(Some(info("alice")), &config);
    assert!(result.need_auth && result.is_valid);
    assert_eq!(token_of(&result), Some("tok".to_string()));
    assert_eq!(result.login_id(), Some("alice"));
}

#[test]
fn steps_end_on_invalid_token() {
    let config = protected();
    let pending = match begin_auth("/home", Some("tok".to_string()), &config) {
        AuthStep::CheckToken(pending) => pending,
        AuthStep::Done(_) => panic!("token not taken up"),
    };
    match pending.on_validity(false) {
        IdentityStep::Done(result) => {
            assert!(!result.need_auth);
            assert!(!result.is_valid);
            assert_eq!(token_of(&result), Some("tok".to_string()));
            assert!(result.token_info.is_none());
        }
        IdentityStep::Resolve(_) => panic!("invalid token resolved"),
    }
}

#[test]
fn context_holds_token_and_identity() {
    let result = AuthResult {
        need_auth: true,
        token: Some(TokenValue::new("tok".to_string())),
        token_info: Some(TokenInfo {
            login_id: "alice".to_string(),
            login_type: "admin".to_string(),
            device: Some("phone".to_string()),
        }),
        is_valid: true,
    };
    let context = create_context(&result);
    assert_eq!(context.token.as_ref().map(|t| t.as_str()), Some("tok"));
    assert_eq!(context.login_id.as_deref(), Some("alice"));
    let identity = context.token_info.expect("identity");
    assert_eq!(identity.login_id, "alice");
    assert_eq!(identity.login_type, "admin");
    assert_eq!(identity.device.as_deref(), Some("phone"));
}

#[test]
fn context_is_anonymous_without_token_or_identity() {
    let no_identity = AuthResult {
        need_auth: false,
        token: Some(TokenValue::new("tok".to_string())),
        token_info: None,
        is_valid: true,
    };
    let context = create_context(&no_identity);
    assert!(context.token.is_none() && context.token_info.is_none() && context.login_id.is_none());
    let no_token = AuthResult { need_auth: false, token: None, token_info: Some(info("a")), is_valid: false };
    let context = create_context(&no_token);
    assert!(context.token.is_none() && context.token_info.is_none() && context.login_id.is_none());
    let fresh = SaTokenContext::new();
    assert!(fresh.token.is_none() && fresh.token_info.is_none() && fresh.login_id.is_none());
}

#[test]
fn clones_keep_their_values() {
    let token = TokenValue::new("tok".to_string());
    assert_eq!(token.clone().as_str(), "tok");
    let identity = TokenInfo {
        login_id: "alice".to_string(),
        login_type: "admin".to_string(),
        device: Some("phone".to_string()),
    };
    let copy = identity.clone();
    assert_eq!(copy.login_id, "alice");
    assert_eq!(copy.login_type, "admin");
    assert_eq!(copy.device.as_deref(), Some("phone"));
    let context = SaTokenContext { token: Some(token), token_info: Some(identity), login_id: Some("alice".to_string()) };
    let copy = context.clone();
    assert_eq!(copy.token.map(|t| t.as_str().to_string()), Some("tok".to_string()));
    assert_eq!(copy.login_id.as_deref(), Some("alice"));
    assert_eq!(copy.token_info.map(|i| i.login_id), Some("alice".to_string()));
}
