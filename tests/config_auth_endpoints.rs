use tracker_load::auth::{check_login_status, login_payload, session_from_auth, status_is_success, AuthError};
use tracker_load::config::{
    is_known_issue_type, Config, ConfigError, Credential, GlobalConfig, MultiTargetConfig,
    SingleTargetConfig,
};
use tracker_load::endpoints::{
    issue_listing_query, issue_listing_url, issue_url, parent_issues_query, project_members_url,
    project_resource_url, service_url, LOGIN_PATH,
};
use tracker_load::models::{AuthSuccess, User};

fn global() -> GlobalConfig {
    GlobalConfig { api_url: "https://api.example".to_string(), jwt_secret: "s".to_string() }
}

fn single(project_id: &str, count: u32, kind: Option<&str>) -> SingleTargetConfig {
    SingleTargetConfig {
        username: "u".to_string(),
        password: "p".to_string(),
        project_id: project_id.to_string(),
        issue_count: count,
        issue_type: kind.map(|k| k.to_string()),
    }
}

fn multi(users: usize, count: u32, kind: Option<&str>) -> MultiTargetConfig {
    MultiTargetConfig {
        users: (0..users)
            .map(|i| Credential { username: format!("u{i}"), password: "p".to_string() })
            .collect(),
        issue_count: count,
        issue_type: kind.map(|k| k.to_string()),
    }
}

fn config(m: Option<MultiTargetConfig>, s: Option<SingleTargetConfig>) -> Config {
    Config { global: global(), multi_target: m, single_target: s }
}

fn problem(c: Config) -> Option<ConfigError> {
    Config::build(c).err()
}

#[test]
fn valid_configs_pass() {
    assert_eq!(problem(config(None, Some(single("p1", 1, None)))), None);
    assert_eq!(problem(config(None, Some(single("p1", 100, Some("test_case"))))), None);
    assert_eq!(problem(config(Some(multi(1, 50, Some("epic"))), None)), None);
    let built = Config::build(config(None, Some(single("p9", 10, None)))).unwrap();
    assert_eq!(built.single_target.unwrap().project_id, "p9");
}

#[test]
fn config_errors() {
    assert_eq!(problem(config(None, None)), Some(ConfigError::NoTarget));
    assert_eq!(problem(config(Some(multi(0, 5, None)), None)), Some(ConfigError::NoUsers));
    assert_eq!(problem(config(Some(multi(1, 0, None)), None)), Some(ConfigError::IssueCountOutOfRange));
    assert_eq!(problem(config(Some(multi(1, 101, None)), None)), Some(ConfigError::IssueCountOutOfRange));
    assert_eq!(problem(config(Some(multi(1, 5, Some("story"))), None)), Some(ConfigError::InvalidIssueType));
    assert_eq!(problem(config(None, Some(single("", 5, None)))), Some(ConfigError::MissingProjectId));
    assert_eq!(problem(config(None, Some(single("p", 0, None)))), Some(ConfigError::IssueCountOutOfRange));
    assert_eq!(problem(config(None, Some(single("p", 5, Some("Bug"))))), Some(ConfigError::InvalidIssueType));
}

#[test]
fn multi_target_checked_before_single_target() {
    let c = config(Some(multi(0, 5, None)), Some(single("", 5, None)));
    assert_eq!(problem(c), Some(ConfigError::NoUsers));
}

#[test]
fn config_error_messages() {
    assert_eq!(ConfigError::IssueCountOutOfRange.message(), "Issue count must be between 1 to 100");
    assert_eq!(ConfigError::InvalidIssueType.message(), "Issue type is invalid.");
    assert_eq!(ConfigError::Unreadable.message(), "Unable to read config file.");
}

#[test]
fn known_issue_types() {
    for t in ["initiative", "epic", "user_story", "task", "issue", "feature", "bug", "test_case"] {
        assert!(is_known_issue_type(t));
    }
    assert!(!is_known_issue_type(""));
    assert!(!is_known_issue_type("story"));
}

fn user() -> User {
    User {
        id: "u1".to_string(),
        username: "alice".to_string(),
        email: None,
        status: "active".to_string(),
        created_at: None,
        updated_at: None,
        avatar: None,
    }
}

fn auth(token: Option<&str>, with_user: bool) -> AuthSuccess {
    AuthSuccess {
        user: if with_user { Some(user()) } else { None },
        token: token.map(|t| t.to_string()),
        project_id: None,
        mfa_required: None,
        mfa_validated: None,
        mfa_auth_token: None,
    }
}

#[test]
fn session_needs_token_and_user() {
    let ctx = session_from_auth("https://api", auth(Some("tok"), true)).unwrap();
    assert_eq!(ctx.api_url, "https://api");
    assert_eq!(ctx.token, "tok");
    assert_eq!(ctx.user.username, "alice");
    assert_eq!(session_from_auth("x", auth(None, true)).err(), Some(AuthError::MissingToken));
    assert_eq!(session_from_auth("x", auth(None, false)).err(), Some(AuthError::MissingToken));
    assert_eq!(session_from_auth("x", auth(Some("t"), false)).err(), Some(AuthError::MissingUser));
}

#[test]
fn login_status() {
    assert_eq!(check_login_status(200), Ok(()));
    assert_eq!(check_login_status(204), Ok(()));
    assert_eq!(check_login_status(401), Err(AuthError::AuthenticationFailed(401)));
    assert_eq!(check_login_status(302), Err(AuthError::AuthenticationFailed(302)));
    assert!(status_is_success(299));
    assert!(!status_is_success(199));
    assert!(!status_is_success(500));
}

#[test]
fn login_request() {
    let p = login_payload("alice", "pw", "x-client-login:t".to_string());
    assert_eq!(p.username, "alice");
    assert_eq!(p.password, "pw");
    assert_eq!(p.captcha_token, "x-client-login:t");
}

#[test]
fn endpoint_addresses() {
    let api = "https://api.example/v1";
    assert_eq!(service_url(api, LOGIN_PATH), "https://api.example/v1/auth/token/email");
    assert_eq!(project_resource_url(api, "p1", "/labels"), "https://api.example/v1/projects/p1/labels");
    assert_eq!(project_resource_url(api, "p1", ""), "https://api.example/v1/projects/p1");
    assert_eq!(issue_url(api, "p1", "i9"), "https://api.example/v1/projects/p1/issues/i9");
    assert_eq!(issue_listing_url(api, Some("p1")), "https://api.example/v1/projects/p1/issues");
    assert_eq!(issue_listing_url(api, None), "https://api.example/v1/issues");
    assert_eq!(
        project_members_url(api, "p1"),
        "https://api.example/v1/iam/projects/p1/members/?status=active"
    );
}

#[test]
fn listing_queries() {
    let q = issue_listing_query(12, 50);
    assert_eq!(q[1], ("page".to_string(), "12".to_string()));
    assert_eq!(q[2], ("per_page".to_string(), "50".to_string()));
    assert_eq!(q[3], ("sort".to_string(), "-createdAt".to_string()));
    let p = parent_issues_query("epic");
    assert_eq!(p[0], ("type".to_string(), "epic".to_string()));
    assert_eq!(p[3], ("per_page".to_string(), "50".to_string()));
}
