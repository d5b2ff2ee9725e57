//! Path patterns and the policy that decides which paths need authentication.

use vstd::prelude::*;
use crate::validator::{AcceptAll, LoginIdValidator};
use crate::text::{find_from, lemma_index_from, ranges_equal, same_chars, to_chars};

verus! {

/// The pattern that matches every path: `/**`.
pub open spec fn universal_pattern() -> Seq<char> {
    seq!['/', '*', '*']
}

/// The ending of a pattern that matches by prefix: `/**`.
pub open spec fn subtree_ending() -> Seq<char> {
    seq!['/', '*', '*']
}

/// The ending of a pattern that matches one segment below a prefix: `/*`.
pub open spec fn segment_ending() -> Seq<char> {
    seq!['/', '*']
}

/// Whether `rest`, what is left of a path behind a prefix, is at most one
/// segment: after the `/` that may start it, it holds no further `/`.
pub open spec fn single_segment(rest: Seq<char>) -> bool {
    if rest.len() > 0 && rest[0] == '/' {
        !rest.skip(1).contains('/')
    } else {
        !rest.contains('/')
    }
}

/// Whether `path` matches `pattern`. The first rule that applies decides:
///
/// 1. `/**` matches every path;
/// 2. `<p>/**` matches the paths that start with `<p>`;
/// 3. `*<s>` matches the paths that end with `<s>`;
/// 4. `<p>/*` matches the paths that start with `<p>` and go on with at most
///    one segment;
/// 5. any other pattern matches the path equal to it.
pub open spec fn match_path_spec(path: Seq<char>, pattern: Seq<char>) -> bool {
    if pattern == universal_pattern() {
        true
    } else if subtree_ending().is_suffix_of(pattern) {
        pattern.take(pattern.len() - 3).is_prefix_of(path)
    } else if pattern.len() > 0 && pattern[0] == '*' {
        pattern.skip(1).is_suffix_of(path)
    } else if segment_ending().is_suffix_of(pattern) {
        let prefix = pattern.take(pattern.len() - 2);
        prefix.is_prefix_of(path) && single_segment(path.skip(prefix.len() as int))
    } else {
        path == pattern
    }
}

/// Matches a path against a pattern, both given as characters.
pub fn match_chars(path: &Vec<char>, pattern: &Vec<char>) -> (matched: bool)
    ensures
        matched == match_path_spec(path@, pattern@),
{
    let n = pattern.len();
    let m = path.len();
    let subtree = n >= 3 && pattern[n - 3] == '/' && pattern[n - 2] == '*' && pattern[n - 1] == '*';
    assert(subtree == subtree_ending().is_suffix_of(pattern@)) by {
        if n >= 3 {
            let tail = pattern@.subrange(n - 3, n as int);
            assert(tail[0] == pattern@[n - 3] && tail[1] == pattern@[n - 2] && tail[2]
                == pattern@[n - 1]);
            if subtree {
                assert(tail =~= subtree_ending());
            }
        }
    }
    if subtree {
        if n == 3 {
            assert(pattern@ =~= universal_pattern());
            return true;
        }
        if m < n - 3 {
            return false;
        }
        let r = ranges_equal(path, 0, pattern, 0, n - 3);
        return r;
    }
    assert(pattern@ != universal_pattern());
    if n >= 1 && pattern[0] == '*' {
        if m < n - 1 {
            return false;
        }
        let r = ranges_equal(path, m - (n - 1), pattern, 1, n - 1);
        return r;
    }
    let segment = n >= 2 && pattern[n - 2] == '/' && pattern[n - 1] == '*';
    assert(segment == segment_ending().is_suffix_of(pattern@)) by {
        if n >= 2 {
            let tail = pattern@.subrange(n - 2, n as int);
            assert(tail[0] == pattern@[n - 2] && tail[1] == pattern@[n - 1]);
            if segment {
                assert(tail =~= segment_ending());
            }
        }
    }
    if segment {
        if m < n - 2 {
            return false;
        }
        if !ranges_equal(path, 0, pattern, 0, n - 2) {
            return false;
        }
        let ghost rest = path@.skip(n - 2);
        let start: usize = if m > n - 2 && path[n - 2] == '/' {
            n - 1
        } else {
            n - 2
        };
        let slash = find_from(path, '/', start);
        proof {
            lemma_index_from(path@, '/', start as int);
            let tail = path@.skip(start as int);
            assert(forall|j: int| 0 <= j < tail.len() ==> tail[j] == path@[start + j]);
            if slash < m {
                assert(tail[slash - start] == '/');
                assert(tail.contains('/'));
            } else {
                assert(!tail.contains('/'));
            }
            if start == n - 1 {
                assert(rest.len() > 0 && rest[0] == '/');
                assert(rest.skip(1) =~= tail);
            } else {
                assert(rest =~= tail);
            }
        }
        return slash == m;
    }
    same_chars(path, pattern)
}

/// Matches a request path against one pattern.
pub fn match_path(path: &str, pattern: &str) -> (matched: bool)
    ensures
        matched == match_path_spec(path@, pattern@),
{
    let path_chars = to_chars(path);
    let pattern_chars = to_chars(pattern);
    match_chars(&path_chars, &pattern_chars)
}

/// The character sequences of a list of string slices.
pub open spec fn str_views(patterns: Seq<&str>) -> Seq<Seq<char>> {
    Seq::new(patterns.len(), |i: int| patterns[i]@)
}

/// The character sequences of a list of strings.
pub open spec fn string_views(patterns: Seq<String>) -> Seq<Seq<char>> {
    Seq::new(patterns.len(), |i: int| patterns[i]@)
}

/// Whether `path` matches at least one of `patterns`.
pub open spec fn match_any_spec(path: Seq<char>, patterns: Seq<Seq<char>>) -> bool {
    exists|i: int| 0 <= i < patterns.len() && match_path_spec(path, #[trigger] patterns[i])
}

/// Whether `path` needs authentication: it matches a pattern of `required`
/// and none of `exempt`.
pub open spec fn need_auth_spec(
    path: Seq<char>,
    required: Seq<Seq<char>>,
    exempt: Seq<Seq<char>>,
) -> bool {
    match_any_spec(path, required) && !match_any_spec(path, exempt)
}

/// Matches a path, given as characters, against each pattern in turn.
fn matches_any_str(path: &Vec<char>, patterns: &[&str]) -> (matched: bool)
    ensures
        matched == match_any_spec(path@, str_views(patterns@)),
{
    let ghost views = str_views(patterns@);
    let mut i: usize = 0;
    while i < patterns.len()
        invariant
            i <= patterns.len(),
            views == str_views(patterns@),
            forall|j: int| 0 <= j < i ==> !match_path_spec(path@, #[trigger] views[j]),
        decreases patterns.len() - i,
    {
        let pattern = to_chars(patterns[i]);
        if match_chars(path, &pattern) {
            assert(match_path_spec(path@, views[i as int]));
            return true;
        }
        i += 1;
    }
    false
}

/// Matches a path, given as characters, against each pattern in turn.
fn matches_any_string(path: &Vec<char>, patterns: &Vec<String>) -> (matched: bool)
    ensures
        matched == match_any_spec(path@, string_views(patterns@)),
{
    let ghost views = string_views(patterns@);
    let mut i: usize = 0;
    while i < patterns.len()
        invariant
            i <= patterns.len(),
            views == string_views(patterns@),
            forall|j: int| 0 <= j < i ==> !match_path_spec(path@, #[trigger] views[j]),
        decreases patterns.len() - i,
    {
        let pattern = to_chars(patterns[i].as_str());
        if match_chars(path, &pattern) {
            assert(match_path_spec(path@, views[i as int]));
            return true;
        }
        i += 1;
    }
    false
}

/// Whether the path matches any pattern of the list.
pub fn match_any(path: &str, patterns: &[&str]) -> (matched: bool)
    ensures
        matched == match_any_spec(path@, str_views(patterns@)),
{
    let path_chars = to_chars(path);
    matches_any_str(&path_chars, patterns)
}

/// Whether the path needs authentication: it matches one of `required` and
/// none of `exempt`.
pub fn need_auth(path: &str, required: &[&str], exempt: &[&str]) -> (needed: bool)
    ensures
        needed == need_auth_spec(path@, str_views(required@), str_views(exempt@)),
{
    let path_chars = to_chars(path);
    matches_any_str(&path_chars, required) && !matches_any_str(&path_chars, exempt)
}

/// Which paths need authentication, and which login ids are acceptable on
/// them.
///
/// A path needs authentication when it matches a required pattern and no
/// exempt pattern: an exempt pattern always overrides a required one.
pub struct PathAuthConfig<V: LoginIdValidator = AcceptAll> {
    required: Vec<String>,
    exempt: Vec<String>,
    validator: V,
}

impl PathAuthConfig<AcceptAll> {
    /// A policy under which no path needs authentication and every login id
    /// is acceptable.
    pub fn new() -> (config: Self)
        ensures
            config.required_spec() == Seq::<Seq<char>>::empty(),
            config.exempt_spec() == Seq::<Seq<char>>::empty(),
    {
        let config = PathAuthConfig {
            required: Vec::new(),
            exempt: Vec::new(),
            validator: AcceptAll,
        };
        assert(config.required_spec() =~= Seq::<Seq<char>>::empty());
        assert(config.exempt_spec() =~= Seq::<Seq<char>>::empty());
        config
    }
}

impl<V: LoginIdValidator + Clone> Clone for PathAuthConfig<V> {
    fn clone(&self) -> (copy: Self)
        ensures
            copy.required_spec() == self.required_spec(),
            copy.exempt_spec() == self.exempt_spec(),
            cloned(self.validator_spec(), copy.validator_spec()),
    {
        let copy = PathAuthConfig {
            required: self.required.clone(),
            exempt: self.exempt.clone(),
            validator: self.validator.clone(),
        };
        assert(copy.required_spec() =~= self.required_spec());
        assert(copy.exempt_spec() =~= self.exempt_spec());
        copy
    }
}

impl Default for PathAuthConfig<AcceptAll> {
    fn default() -> (config: Self)
        ensures
            config.required_spec() == Seq::<Seq<char>>::empty(),
            config.exempt_spec() == Seq::<Seq<char>>::empty(),
    {
        PathAuthConfig::new()
    }
}

impl<V: LoginIdValidator> PathAuthConfig<V> {
    /// The patterns of the paths that need authentication, in order.
    pub closed spec fn required_spec(&self) -> Seq<Seq<char>> {
        string_views(self.required@)
    }

    /// The patterns of the paths that are exempt from authentication, in
    /// order.
    pub closed spec fn exempt_spec(&self) -> Seq<Seq<char>> {
        string_views(self.exempt@)
    }

    /// The validator of login ids.
    pub closed spec fn validator_spec(&self) -> V {
        self.validator
    }

    /// Whether `path` needs authentication under this policy.
    pub open spec fn check_spec(&self, path: Seq<char>) -> bool {
        need_auth_spec(path, self.required_spec(), self.exempt_spec())
    }

    /// Sets the patterns of the paths that need authentication.
    pub fn include_paths(self, patterns: Vec<String>) -> (config: Self)
        ensures
            config.required_spec() == string_views(patterns@),
            config.exempt_spec() == self.exempt_spec(),
            config.validator_spec() == self.validator_spec(),
    {
        PathAuthConfig { required: patterns, exempt: self.exempt, validator: self.validator }
    }

    /// Sets the patterns of the paths that are exempt from authentication.
    pub fn exclude(self, patterns: Vec<String>) -> (config: Self)
        ensures
            config.required_spec() == self.required_spec(),
            config.exempt_spec() == string_views(patterns@),
            config.validator_spec() == self.validator_spec(),
    {
        PathAuthConfig { required: self.required, exempt: patterns, validator: self.validator }
    }

    /// Sets the validator of login ids.
    pub fn validator<W: LoginIdValidator>(self, validator: W) -> (config: PathAuthConfig<W>)
        ensures
            config.required_spec() == self.required_spec(),
            config.exempt_spec() == self.exempt_spec(),
            config.validator_spec() == validator,
    {
        PathAuthConfig { required: self.required, exempt: self.exempt, validator }
    }

    /// Whether `path` needs authentication.
    pub fn check(&self, path: &str) -> (needed: bool)
        ensures
            needed == self.check_spec(path@),
    {
        let path_chars = to_chars(path);
        matches_any_string(&path_chars, &self.required) && !matches_any_string(
            &path_chars,
            &self.exempt,
        )
    }

    /// Asks the validator whether `login_id` is acceptable.
    pub fn validate_login_id(&self, login_id: &str) -> (verdict: bool)
        ensures
            self.validator_spec().admits(login_id@, verdict),
    {
        self.validator.validate(login_id)
    }
}

/// `/**` matches every path.
pub proof fn lemma_universal_pattern_matches_all(path: Seq<char>)
    ensures
        match_path_spec(path, universal_pattern()),
{
}

/// A pattern `<p>/**` matches exactly the paths that start with `<p>`.
pub proof fn lemma_subtree_pattern_is_prefix_match(path: Seq<char>, prefix: Seq<char>)
    ensures
        match_path_spec(path, prefix + subtree_ending()) == prefix.is_prefix_of(path),
{
    let pattern = prefix + subtree_ending();
    assert(pattern.subrange(pattern.len() - 3, pattern.len() as int) =~= subtree_ending());
    assert(pattern.take(pattern.len() - 3) =~= prefix);
    if pattern == universal_pattern() {
        assert(prefix.len() == 0);
        assert(prefix =~= path.subrange(0, 0));
    }
}

/// A pattern `<p>/**` matches a path exactly when the path starts with
/// `<p>/`, for every path that starts with `<p>/` if it starts with `<p>`.
/// (The path `<p>` itself and a path `<p>x` match the pattern too.)
pub proof fn lemma_subtree_pattern_matches_below(path: Seq<char>, prefix: Seq<char>)
    requires
        prefix.is_prefix_of(path) ==> (prefix + seq!['/']).is_prefix_of(path),
    ensures
        match_path_spec(path, prefix + subtree_ending()) == (prefix + seq!['/']).is_prefix_of(
            path,
        ),
{
    lemma_subtree_pattern_is_prefix_match(path, prefix);
    let below = prefix + seq!['/'];
    if below.is_prefix_of(path) {
        assert(prefix =~= path.subrange(0, prefix.len() as int)) by {
            assert(forall|j: int| 0 <= j < prefix.len() ==> prefix[j] == below[j]);
        }
    }
}

/// A pattern `<p>/*` matches `<p>/<s>` exactly when `<s>` holds no `/`: one
/// level below `<p>` matches, `<p>/` itself matches, deeper levels do not.
pub proof fn lemma_segment_pattern_matches_one_level(prefix: Seq<char>, segment: Seq<char>)
    requires
        prefix.len() > 0 ==> prefix[0] != '*',
    ensures
        match_path_spec(prefix + seq!['/'] + segment, prefix + segment_ending())
            == !segment.contains('/'),
{
    let path = prefix + seq!['/'] + segment;
    let pattern = prefix + segment_ending();
    let n = pattern.len() as int;
    assert(pattern[n - 2] == '/' && pattern[n - 1] == '*');
    assert(pattern != universal_pattern()) by {
        if pattern == universal_pattern() {
            assert(pattern[1] == '*');
        }
    }
    assert(!subtree_ending().is_suffix_of(pattern)) by {
        if subtree_ending().is_suffix_of(pattern) {
            assert(pattern.subrange(n - 3, n)[1] == '*');
        }
    }
    assert(pattern[0] != '*');
    assert(pattern.subrange(n - 2, n) =~= segment_ending());
    assert(pattern.take(n - 2) =~= prefix);
    assert(prefix =~= path.subrange(0, prefix.len() as int));
    let rest = path.skip(prefix.len() as int);
    assert(rest[0] == '/');
    assert(rest.skip(1) =~= segment);
}

/// A policy without required patterns asks authentication of no path.
pub proof fn lemma_nothing_required_nothing_checked(path: Seq<char>, exempt: Seq<Seq<char>>)
    ensures
        !need_auth_spec(path, Seq::<Seq<char>>::empty(), exempt),
{
}

/// A policy without a configured validator accepts every login id.
pub proof fn lemma_accept_all_accepts(login_id: Seq<char>, verdict: bool)
    requires
        AcceptAll.admits(login_id, verdict),
    ensures
        verdict,
{
}

/// A path that matches an exempt pattern needs no authentication, whatever
/// the required patterns are.
pub proof fn lemma_exempt_overrides_required(
    path: Seq<char>,
    required: Seq<Seq<char>>,
    exempt: Seq<Seq<char>>,
)
    requires
        match_any_spec(path, exempt),
    ensures
        !need_auth_spec(path, required, exempt),
{
}

} // verus!
