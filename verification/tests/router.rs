use sa_token_guard::router::{match_any, match_path, need_auth, PathAuthConfig};
use sa_token_guard::validator::{AcceptAll, LoginIdValidator, Predicate};

fn strings(items: &[&str]) -> Vec<String> {
    items.iter().map(|s| s.to_string()).collect()
}

#[test]
fn universal_pattern_matches_every_path() {
    for path in ["", "/", "/api", "/api/user", "anything", "/a/b/c/d.html", "/日本語"] {
        assert!(match_path(path, "/**"), "{path}");
    }
}

#[test]
fn subtree_pattern_matches_by_prefix() {
    assert!(match_path("/api/user", "/api/**"));
    assert!(match_path("/api/user/profile", "/api/**"));
    assert!(match_path("/api/", "/api/**"));
    assert!(!match_path("/other", "/api/**"));
    assert!(!match_path("/ap", "/api/**"));
    assert!(!match_path("", "/api/**"));
}

#[test]
fn subtree_pattern_takes_the_prefix_without_the_slash() {
    assert!(match_path("/api", "/api/**"));
    assert!(match_path("/apix", "/api/**"));
}

#[test]
fn segment_pattern_matches_one_level() {
    assert!(match_path("/api/user", "/api/*"));
    assert!(!match_path("/api/user/profile", "/api/*"));
    assert!(match_path("/api/", "/api/*"));
}

#[test]
fn segment_pattern_edge_cases() {
    assert!(match_path("/api", "/api/*"));
    assert!(match_path("/apiuser", "/api/*"));
    assert!(!match_path("/api/user/", "/api/*"));
    assert!(!match_path("/apix/y", "/api/*"));
    assert!(!match_path("/ap", "/api/*"));
    assert!(!match_path("/other/user", "/api/*"));
    assert!(match_path("x", "/*"));
    assert!(match_path("/x", "/*"));
    assert!(!match_path("/x/y", "/*"));
}

#[test]
fn suffix_pattern_matches_by_ending() {
    assert!(match_path("/index.html", "*.html"));
    assert!(match_path("/a/b/c.html", "*.html"));
    assert!(match_path(".html", "*.html"));
    assert!(!match_path("/index.htm", "*.html"));
    assert!(!match_path("/index.html.bak", "*.html"));
    assert!(match_path("/whatever", "*"));
    assert!(match_path("", "*"));
}

#[test]
fn exact_pattern_matches_the_same_path_only() {
    assert!(match_path("/login", "/login"));
    assert!(!match_path("/login/", "/login"));
    assert!(!match_path("/logi", "/login"));
    assert!(!match_path("/Login", "/login"));
    assert!(match_path("", ""));
    assert!(!match_path("/", ""));
}

#[test]
fn rules_apply_in_order() {
    // `/**` is the universal pattern before it is a prefix pattern.
    assert!(match_path("no-slash", "/**"));
    // A pattern that ends with `/**` is a prefix pattern even where it starts with `*`.
    assert!(match_path("*/x/y", "*/x/**"));
    assert!(!match_path("a/x/y", "*/x/**"));
    // A pattern that starts with `*` is a suffix pattern even where it ends with `/*`.
    assert!(match_path("/a/b/*", "*/b/*"));
    assert!(!match_path("/a/b/c", "*/b/*"));
}

#[test]
fn paths_are_compared_by_characters() {
    assert!(match_path("/données/été", "/données/*"));
    assert!(match_path("/données/été", "*été"));
    assert!(!match_path("/données/ete", "*été"));
    assert!(match_path("/日本/語", "/日本/**"));
}

#[test]
fn match_any_is_true_when_one_pattern_matches() {
    assert!(match_any("/api/user", &["/admin/**", "/api/*"]));
    assert!(match_any("/api/user", &["/api/user"]));
    assert!(!match_any("/api/user", &["/admin/**", "*.html"]));
    assert!(!match_any("/api/user", &[]));
}

#[test]
fn need_auth_is_required_and_not_exempt() {
    assert!(need_auth("/api/user", &["/api/**"], &["/api/public/**"]));
    assert!(!need_auth("/api/public/info", &["/api/**"], &["/api/public/**"]));
    assert!(!need_auth("/home", &["/api/**"], &["/api/public/**"]));
}

#[test]
fn exempt_pattern_overrides_required_pattern() {
    for path in ["/api/login", "/api/user", "/x"] {
        assert!(!need_auth(path, &["/**"], &["/**"]));
        assert!(!need_auth(path, &["/**", "/api/**"], &["*"]));
    }
    assert!(!need_auth("/api/login", &["/**"], &["/api/login"]));
    assert!(need_auth("/api/user", &["/**"], &["/api/login"]));
}

#[test]
fn empty_required_list_asks_no_authentication() {
    assert!(!need_auth("/api/user", &[], &[]));
    assert!(!need_auth("/api/user", &[], &["/x"]));
    assert!(!PathAuthConfig::new().check("/api/user"));
    assert!(!PathAuthConfig::default().check("/"));
}

#[test]
fn config_check_follows_its_lists() {
    let config = PathAuthConfig::new()
        .include_paths(strings(&["/api/**", "/admin/*"]))
        .exclude(strings(&["/api/login", "*.css"]));
    assert!(config.check("/api/user"));
    assert!(config.check("/admin/panel"));
    assert!(!config.check("/api/login"));
    assert!(!config.check("/api/site.css"));
    assert!(!config.check("/home"));
    assert!(!config.check("/admin/panel/deep"));
}

#[test]
fn config_builders_replace_the_lists() {
    let config = PathAuthConfig::new()
        .include_paths(strings(&["/a/**"]))
        .include_paths(strings(&["/b/**"]))
        .exclude(strings(&["/b/x"]))
        .exclude(strings(&["/b/y"]));
    assert!(!config.check("/a/1"));
    assert!(config.check("/b/1"));
    assert!(config.check("/b/x"));
    assert!(!config.check("/b/y"));
}

#[test]
fn config_without_validator_accepts_every_login_id() {
    let config = PathAuthConfig::new();
    assert!(config.validate_login_id("anyone"));
    assert!(config.validate_login_id(""));
    assert!(AcceptAll.validate("x"));
}

#[test]
fn config_validator_decides_on_login_ids() {
    let config = PathAuthConfig::new()
        .include_paths(strings(&["/**"]))
        .validator(Predicate::new(|id: &str| id.starts_with("user_")));
    assert!(config.validate_login_id("user_1"));
    assert!(!config.validate_login_id("guest"));
    assert!(config.check("/x"));
}

#[test]
fn validator_keeps_lists_set_before_and_after() {
    let config = PathAuthConfig::new()
        .include_paths(strings(&["/api/**"]))
        .validator(Predicate::new(|id: &str| id != "banned"))
        .exclude(strings(&["/api/open"]));
    assert!(config.check("/api/x"));
    assert!(!config.check("/api/open"));
    assert!(!config.validate_login_id("banned"));
    assert!(config.validate_login_id("fine"));
}

struct Tenant {
    prefix: String,
}

impl LoginIdValidator for Tenant {
    fn validate(&self, login_id: &str) -> bool {
        login_id.starts_with(&self.prefix)
    }
}

#[test]
fn own_validator_type_is_asked() {
    let config = PathAuthConfig::new().validator(Tenant { prefix: "acme:".to_string() });
    assert!(config.validate_login_id("acme:alice"));
    assert!(!config.validate_login_id("other:bob"));
}

#[test]
fn cloned_config_keeps_lists_and_validator() {
    let config = PathAuthConfig::new()
        .include_paths(strings(&["/api/**"]))
        .exclude(strings(&["/api/open"]))
        .validator(Predicate::new(|id: &str| id == "alice"));
    let copy = config.clone();
    assert!(copy.check("/api/x"));
    assert!(!copy.check("/api/open"));
    assert!(copy.validate_login_id("alice"));
    assert!(!copy.validate_login_id("bob"));
}
