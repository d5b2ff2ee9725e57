//! Tokens, resolved identities and the context of one request.

use vstd::prelude::*;

verus! {

/// An opaque credential that a client presents.
pub struct TokenValue {
    value: String,
}

impl View for TokenValue {
    type V = Seq<char>;

    closed spec fn view(&self) -> Seq<char> {
        self.value@
    }
}

impl TokenValue {
    /// Wraps the text of a token.
    pub fn new(value: String) -> (token: Self)
        ensures
            token@ == value@,
    {
        TokenValue { value }
    }

    /// The text of the token.
    pub fn as_str(&self) -> (text: &str)
        ensures
            text@ == self@,
    {
        self.value.as_str()
    }
}

impl Clone for TokenValue {
    fn clone(&self) -> (copy: Self)
        ensures
            copy == *self,
    {
        TokenValue { value: self.value.clone() }
    }
}

/// What a token backend knows of a valid token: the login id and the
/// metadata that came with the login.
pub struct TokenInfo {
    /// Who is logged in.
    pub login_id: String,
    /// The kind of account that logged in.
    pub login_type: String,
    /// The device that logged in, where the backend knows it.
    pub device: Option<String>,
}

/// The mathematical value of a `TokenInfo`.
pub struct Identity {
    pub login_id: Seq<char>,
    pub login_type: Seq<char>,
    pub device: Option<Seq<char>>,
}

/// The characters of an optional string.
pub open spec fn optional_text(text: Option<String>) -> Option<Seq<char>> {
    match text {
        Some(s) => Some(s@),
        None => None,
    }
}

impl View for TokenInfo {
    type V = Identity;

    open spec fn view(&self) -> Identity {
        Identity {
            login_id: self.login_id@,
            login_type: self.login_type@,
            device: optional_text(self.device),
        }
    }
}

impl Clone for TokenInfo {
    fn clone(&self) -> (copy: Self)
        ensures
            copy == *self,
    {
        let device = match &self.device {
            Some(d) => Some(d.clone()),
            None => None,
        };
        TokenInfo { login_id: self.login_id.clone(), login_type: self.login_type.clone(), device }
    }
}

/// The view of an optional token.
pub open spec fn optional_token(token: Option<TokenValue>) -> Option<Seq<char>> {
    match token {
        Some(t) => Some(t@),
        None => None,
    }
}

/// The view of an optional identity.
pub open spec fn optional_identity(info: Option<TokenInfo>) -> Option<Identity> {
    match info {
        Some(i) => Some(i@),
        None => None,
    }
}

/// What the handler of one request can learn of who sent it.
pub struct SaTokenContext {
    /// The token of the request.
    pub token: Option<TokenValue>,
    /// What the backend resolved the token to.
    pub token_info: Option<TokenInfo>,
    /// The login id of the sender.
    pub login_id: Option<String>,
}

/// The mathematical value of a `SaTokenContext`.
pub struct ContextView {
    pub token: Option<Seq<char>>,
    pub identity: Option<Identity>,
    pub login_id: Option<Seq<char>>,
}

impl View for SaTokenContext {
    type V = ContextView;

    open spec fn view(&self) -> ContextView {
        ContextView {
            token: optional_token(self.token),
            identity: optional_identity(self.token_info),
            login_id: optional_text(self.login_id),
        }
    }
}

/// The context of a request of which nothing is known.
pub open spec fn anonymous_context() -> ContextView {
    ContextView { token: None, identity: None, login_id: None }
}

impl SaTokenContext {
    /// A context that names nobody.
    pub fn new() -> (context: Self)
        ensures
            context@ == anonymous_context(),
    {
        SaTokenContext { token: None, token_info: None, login_id: None }
    }
}

impl Clone for SaTokenContext {
    fn clone(&self) -> (copy: Self)
        ensures
            copy == *self,
    {
        let token = match &self.token {
            Some(t) => Some(t.clone()),
            None => None,
        };
        let token_info = match &self.token_info {
            Some(i) => Some(i.clone()),
            None => None,
        };
        let login_id = match &self.login_id {
            Some(l) => Some(l.clone()),
            None => None,
        };
        SaTokenContext { token, token_info, login_id }
    }
}

} // verus!
