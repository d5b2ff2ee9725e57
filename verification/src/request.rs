//! What the core reads of a request, and the search for its token.
//!
//! The token is looked for in four places, and the first that has one
//! wins: the header named by the configured token name, the
//! `Authorization` header, the cookie of that name, and the query
//! parameter of that name. A header value loses one leading `Bearer `; a
//! query value is percent-decoded; a cookie value is taken as it is.

use vstd::prelude::*;
use crate::text::{find_pair, has_prefix, lookup, same_chars, to_chars};
use crate::token::optional_text;

verus! {

/// The parts of a request that the core reads.
pub struct RequestParts {
    /// The path of the request, without the query.
    pub path: String,
    /// The headers in the order in which they came, as name and value.
    pub headers: Vec<(String, String)>,
    /// The query string, without the `?`, where the request has one.
    pub query: Option<String>,
}

/// The mathematical value of a `RequestParts`.
pub struct RequestView {
    pub path: Seq<char>,
    pub headers: Seq<(Seq<char>, Seq<char>)>,
    pub query: Option<Seq<char>>,
}

/// The names and values of a list of headers, as characters.
pub open spec fn header_views(headers: Seq<(String, String)>) -> Seq<(Seq<char>, Seq<char>)> {
    Seq::new(headers.len(), |i: int| (headers[i].0@, headers[i].1@))
}

impl View for RequestParts {
    type V = RequestView;

    open spec fn view(&self) -> RequestView {
        RequestView {
            path: self.path@,
            headers: header_views(self.headers@),
            query: optional_text(self.query),
        }
    }
}

/// The number that stands for `c` when case is ignored: that of its lower
/// case form for an ASCII letter, its own for every other character.
pub open spec fn ascii_folded(c: char) -> u32 {
    if 'A' <= c && c <= 'Z' {
        (c as u32 + 32) as u32
    } else {
        c as u32
    }
}

/// Whether two header names are the same: header names are compared
/// without regard to the case of ASCII letters.
pub open spec fn same_header_name(a: Seq<char>, b: Seq<char>) -> bool {
    a.len() == b.len() && forall|i: int| 0 <= i < a.len() ==> ascii_folded(#[trigger] a[i])
        == ascii_folded(b[i])
}

/// The value of the first header from position `from` on that is named
/// `name`.
pub open spec fn header_from(headers: Seq<(Seq<char>, Seq<char>)>, name: Seq<char>, from: int)
    -> Option<Seq<char>>
    decreases headers.len() - from,
{
    if from < 0 || from >= headers.len() {
        None
    } else if same_header_name(headers[from].0, name) {
        Some(headers[from].1)
    } else {
        header_from(headers, name, from + 1)
    }
}

/// The value of the first header named `name`.
pub open spec fn header_value(headers: Seq<(Seq<char>, Seq<char>)>, name: Seq<char>) -> Option<
    Seq<char>,
> {
    header_from(headers, name, 0)
}

/// The prefix that a header value may carry before the token.
pub open spec fn bearer_prefix() -> Seq<char> {
    "Bearer "@
}

/// The name of the standard header for credentials.
pub open spec fn authorization_name() -> Seq<char> {
    "Authorization"@
}

/// The name of the header that carries the cookies.
pub open spec fn cookie_header_name() -> Seq<char> {
    "Cookie"@
}

/// A header value without one leading `Bearer `, where it has one.
pub open spec fn strip_bearer(value: Seq<char>) -> Seq<char> {
    if bearer_prefix().is_prefix_of(value) {
        value.skip(bearer_prefix().len() as int)
    } else {
        value
    }
}

/// The value of the cookie `name` in the value of a `Cookie` header:
/// pieces `name=value` separated by `;`, each after the spaces that it
/// starts with.
pub open spec fn cookie_value(cookies: Seq<char>, name: Seq<char>) -> Option<Seq<char>> {
    lookup(cookies, ';', true, name)
}

/// The value of the parameter `name` in a query string, as it stands
/// there: pieces `name=value` separated by `&`.
pub open spec fn query_value(query: Seq<char>, name: Seq<char>) -> Option<Seq<char>> {
    lookup(query, '&', false, name)
}

/// What `urlencoding::decode` gives for `text`: the percent-decoded text,
/// or `None` where the decoded bytes are not UTF-8.
pub uninterp spec fn percent_decoded(text: Seq<char>) -> Option<Seq<char>>;

/// The decoded value of the parameter `name` in a query string. The first
/// piece that has the name decides, also where its value does not decode.
pub open spec fn query_param(query: Seq<char>, name: Seq<char>) -> Option<Seq<char>> {
    match query_value(query, name) {
        Some(raw) => percent_decoded(raw),
        None => None,
    }
}

/// The query value that decides on the token of a request, as it stands
/// in the query: there is one where no header and no cookie has a token
/// and the query string has the parameter.
pub open spec fn deciding_query_value(request: RequestView, token_name: Seq<char>) -> Option<
    Seq<char>,
> {
    let named = header_value(request.headers, token_name);
    let standard = header_value(request.headers, authorization_name());
    let cookies = header_value(request.headers, cookie_header_name());
    if named is Some || (token_name != authorization_name() && standard is Some) || (cookies is Some
        && cookie_value(cookies->0, token_name) is Some) || request.query is None {
        None
    } else {
        query_value(request.query->0, token_name)
    }
}

/// The token of a request, by the order of the four places.
pub open spec fn extract_token_spec(request: RequestView, token_name: Seq<char>) -> Option<
    Seq<char>,
> {
    let named = header_value(request.headers, token_name);
    let standard = header_value(request.headers, authorization_name());
    let cookies = header_value(request.headers, cookie_header_name());
    if named is Some {
        Some(strip_bearer(named->0))
    } else if token_name != authorization_name() && standard is Some {
        Some(strip_bearer(standard->0))
    } else if cookies is Some && cookie_value(cookies->0, token_name) is Some {
        cookie_value(cookies->0, token_name)
    } else if request.query is Some {
        query_param(request.query->0, token_name)
    } else {
        None
    }
}

/// Calls `urlencoding::decode`, which undoes percent-encoding and reads the
/// bytes that come out as UTF-8. The result is named `percent_decoded`;
/// the one thing claimed of it is what the function does first: text
/// without a `%` comes back as it is.
#[verifier::external_body]
fn percent_decode(text: &str) -> (decoded: Option<String>)
    ensures
        optional_text(decoded) == percent_decoded(text@),
        !text@.contains('%') ==> optional_text(decoded) == Some(text@),
{
    match urlencoding::decode(text) {
        Ok(plain) => Some(plain.into_owned()),
        Err(_) => None,
    }
}

/// The number that stands for `c` when case is ignored.
fn fold_ascii(c: char) -> (n: u32)
    ensures
        n == ascii_folded(c),
{
    let n: u32 = c as u32;
    if 65 <= n && n <= 90 {
        n + 32
    } else {
        n
    }
}

/// Whether two header names are the same.
fn names_match(a: &Vec<char>, b: &Vec<char>) -> (r: bool)
    ensures
        r == same_header_name(a@, b@),
{
    if a.len() != b.len() {
        return false;
    }
    let mut i: usize = 0;
    while i < a.len()
        invariant
            i <= a.len(),
            a.len() == b.len(),
            forall|j: int| 0 <= j < i ==> ascii_folded(#[trigger] a@[j]) == ascii_folded(b@[j]),
        decreases a.len() - i,
    {
        if fold_ascii(a[i]) != fold_ascii(b[i]) {
            return false;
        }
        i += 1;
    }
    true
}

/// Finds the value of the first header named `name`.
pub fn find_header<'a>(headers: &'a Vec<(String, String)>, name: &str) -> (value: Option<&'a str>)
    ensures
        match value {
            Some(v) => header_value(header_views(headers@), name@) == Some(v@),
            None => header_value(header_views(headers@), name@) is None,
        },
{
    let wanted = to_chars(name);
    let ghost views = header_views(headers@);
    let mut i: usize = 0;
    while i < headers.len()
        invariant
            i <= headers.len(),
            wanted@ == name@,
            views == header_views(headers@),
            header_from(views, name@, i as int) == header_value(views, name@),
        decreases headers.len() - i,
    {
        let candidate = to_chars(headers[i].0.as_str());
        if names_match(&candidate, &wanted) {
            return Some(headers[i].1.as_str());
        }
        i += 1;
    }
    None
}

/// Takes one leading `Bearer ` off a header value.
pub fn extract_bearer_token(value: &str) -> (token: String)
    ensures
        token@ == strip_bearer(value@),
{
    let chars = to_chars(value);
    let prefix = to_chars("Bearer ");
    if has_prefix(&chars, &prefix) {
        value.substring_char(prefix.len(), chars.len()).to_owned()
    } else {
        value.to_owned()
    }
}

/// Finds the value of the cookie `name` in the value of a `Cookie` header.
pub fn find_cookie(cookies: &str, name: &str) -> (value: Option<String>)
    ensures
        optional_text(value) == cookie_value(cookies@, name@),
{
    let chars = to_chars(cookies);
    let wanted = to_chars(name);
    match find_pair(&chars, ';', true, &wanted) {
        Some((from, to)) => Some(cookies.substring_char(from, to).to_owned()),
        None => None,
    }
}

/// Finds the value of the parameter `name` in a query string, as it
/// stands there.
pub fn find_query_value(query: &str, name: &str) -> (value: Option<String>)
    ensures
        optional_text(value) == query_value(query@, name@),
{
    let chars = to_chars(query);
    let wanted = to_chars(name);
    match find_pair(&chars, '&', false, &wanted) {
        Some((from, to)) => Some(query.substring_char(from, to).to_owned()),
        None => None,
    }
}

/// Finds the parameter `name` in a query string and percent-decodes its
/// value.
pub fn parse_query_param(query: &str, name: &str) -> (value: Option<String>)
    ensures
        optional_text(value) == query_param(query@, name@),
        query_value(query@, name@) matches Some(raw) ==> (!raw.contains('%') ==> optional_text(
            value,
        ) == Some(raw)),
{
    match find_query_value(query, name) {
        Some(raw) => percent_decode(raw.as_str()),
        None => None,
    }
}

/// Finds the token of a request: in the header named `token_name`, then in
/// the `Authorization` header, then in the cookie named `token_name`, then
/// in the query parameter named `token_name`.
pub fn extract_token_from_request(request: &RequestParts, token_name: &str) -> (token: Option<
    String,
>)
    ensures
        optional_text(token) == extract_token_spec(request@, token_name@),
        deciding_query_value(request@, token_name@) matches Some(raw) ==> (!raw.contains('%')
            ==> optional_text(token) == Some(raw)),
{
    match find_header(&request.headers, token_name) {
        Some(value) => {
            return Some(extract_bearer_token(value));
        },
        None => {},
    }
    let name_chars = to_chars(token_name);
    let standard = to_chars("Authorization");
    if !same_chars(&name_chars, &standard) {
        match find_header(&request.headers, "Authorization") {
            Some(value) => {
                return Some(extract_bearer_token(value));
            },
            None => {},
        }
    }
    match find_header(&request.headers, "Cookie") {
        Some(cookies) => {
            match find_cookie(cookies, token_name) {
                Some(value) => {
                    return Some(value);
                },
                None => {},
            }
        },
        None => {},
    }
    match &request.query {
        Some(query) => parse_query_param(query.as_str(), token_name),
        None => None,
    }
}

/// The four places are searched in this order, and the first that has a
/// token decides: the named header, the `Authorization` header unless it
/// is the named one, the cookie, the query parameter.
pub proof fn lemma_extraction_order(request: RequestView, token_name: Seq<char>)
    ensures
        ({
            let named = header_value(request.headers, token_name);
            let standard = header_value(request.headers, authorization_name());
            let cookies = header_value(request.headers, cookie_header_name());
            let cookie = if cookies is Some {
                cookie_value(cookies->0, token_name)
            } else {
                None
            };
            let token = extract_token_spec(request, token_name);
            let standard_counts = token_name != authorization_name() && standard is Some;
            &&& named is Some ==> token == Some(strip_bearer(named->0))
            &&& named is None && standard_counts ==> token == Some(strip_bearer(standard->0))
            &&& named is None && !standard_counts && cookie is Some ==> token == cookie
            &&& named is None && !standard_counts && cookie is None && request.query is Some
                ==> token == query_param(request.query->0, token_name)
            &&& named is None && !standard_counts && cookie is None && request.query is None
                ==> token is None
        }),
{
}

/// A header value that does not start with `Bearer ` is the token as it
/// is, and one that does is the token behind the prefix.
pub proof fn lemma_strip_bearer(token: Seq<char>)
    ensures
        strip_bearer(bearer_prefix() + token) == token,
        !bearer_prefix().is_prefix_of(token) ==> strip_bearer(token) == token,
{
    let value = bearer_prefix() + token;
    assert(value.subrange(0, bearer_prefix().len() as int) =~= bearer_prefix());
    assert(value.skip(bearer_prefix().len() as int) =~= token);
}

} // verus!
