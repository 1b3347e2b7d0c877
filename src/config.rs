//! Run configuration and its validation.
use crate::text::same_text;
use vstd::prelude::*;

verus! {

/// Fewest issues a run may create.
pub const MIN_ISSUE_COUNT: u32 = 1;

/// Most issues a run may create.
pub const MAX_ISSUE_COUNT: u32 = 100;

#[derive(Clone, Debug)]
pub struct Config {
    pub global: GlobalConfig,
    pub multi_target: Option<MultiTargetConfig>,
    pub single_target: Option<SingleTargetConfig>,
}

/// Where the service lives and the secret that signs captcha tokens.
#[derive(Clone, Debug)]
pub struct GlobalConfig {
    pub api_url: String,
    pub jwt_secret: String,
}

#[derive(Clone, Debug)]
pub struct MultiTargetConfig {
    pub users: Vec<Credential>,
    pub issue_count: u32,
    pub issue_type: Option<String>,
}

#[derive(Clone, Debug)]
pub struct Credential {
    pub username: String,
    pub password: String,
}

/// One user working on one project.
#[derive(Clone, Debug)]
pub struct SingleTargetConfig {
    pub username: String,
    pub password: String,
    pub project_id: String,
    pub issue_count: u32,
    pub issue_type: Option<String>,
}

/// The command line: the configuration file and what to run.
#[derive(Clone, Debug)]
pub struct Args {
    pub config: String,
    pub command: Commands,
}

/// What a run does.
#[derive(Clone, Copy, Debug, PartialEq, Eq, Structural)]
pub enum Commands {
    /// Create issues into a specific project
    CreateIssues,
    /// Crawl all issues of the specified project
    CrawlIssues,
    /// Simulate all users doing random actions as if they are working in their projects
    UsersReadWrite,
    /// Simulate all users doing random actions as if they are working in their projects
    UsersReadonly,
}

/// Why a configuration was refused.
#[derive(Clone, Copy, Debug, PartialEq, Eq, Structural)]
pub enum ConfigError {
    Unreadable,
    Unparsable,
    NoTarget,
    NoUsers,
    IssueCountOutOfRange,
    MissingProjectId,
    InvalidIssueType,
}

pub open spec fn config_error_text(e: ConfigError) -> Seq<char> {
    match e {
        ConfigError::Unreadable => "Unable to read config file."@,
        ConfigError::Unparsable => "Unable to parse config file."@,
        ConfigError::NoTarget => "Either single target or multi-target config must be present."@,
        ConfigError::NoUsers => "At least one user must be present in multi-target config."@,
        ConfigError::IssueCountOutOfRange => "Issue count must be between 1 to 100"@,
        ConfigError::MissingProjectId => "Project ID must be present in single-target config."@,
        ConfigError::InvalidIssueType => "Issue type is invalid."@,
    }
}

impl ConfigError {
    /// The message shown for this error.
    pub fn message(&self) -> (r: &'static str)
        ensures
            r@ == config_error_text(*self),
    {
        match self {
            ConfigError::Unreadable => "Unable to read config file.",
            ConfigError::Unparsable => "Unable to parse config file.",
            ConfigError::NoTarget => "Either single target or multi-target config must be present.",
            ConfigError::NoUsers => "At least one user must be present in multi-target config.",
            ConfigError::IssueCountOutOfRange => "Issue count must be between 1 to 100",
            ConfigError::MissingProjectId => "Project ID must be present in single-target config.",
            ConfigError::InvalidIssueType => "Issue type is invalid.",
        }
    }
}

/// The issue types a run may ask for.
pub open spec fn is_issue_type_name(t: Seq<char>) -> bool {
    ||| t == "initiative"@
    ||| t == "epic"@
    ||| t == "user_story"@
    ||| t == "task"@
    ||| t == "issue"@
    ||| t == "feature"@
    ||| t == "bug"@
    ||| t == "test_case"@
}

/// Whether `t` names one of the issue types a run may ask for.
pub fn is_known_issue_type(t: &str) -> (r: bool)
    ensures
        r == is_issue_type_name(t@),
{
    same_text(t, "initiative") || same_text(t, "epic") || same_text(t, "user_story")
        || same_text(t, "task") || same_text(t, "issue") || same_text(t, "feature")
        || same_text(t, "bug") || same_text(t, "test_case")
}

pub open spec fn count_in_range(n: u32) -> bool {
    MIN_ISSUE_COUNT <= n <= MAX_ISSUE_COUNT
}

pub open spec fn type_allowed(t: Option<String>) -> bool {
    t matches Some(v) ==> is_issue_type_name(v@)
}

/// The first problem of a multi-target section, if any.
pub open spec fn multi_target_problem(m: MultiTargetConfig) -> Option<ConfigError> {
    if m.users@.len() == 0 {
        Some(ConfigError::NoUsers)
    } else if !count_in_range(m.issue_count) {
        Some(ConfigError::IssueCountOutOfRange)
    } else if !type_allowed(m.issue_type) {
        Some(ConfigError::InvalidIssueType)
    } else {
        None
    }
}

/// The first problem of a single-target section, if any.
pub open spec fn single_target_problem(s: SingleTargetConfig) -> Option<ConfigError> {
    if s.project_id@.len() == 0 {
        Some(ConfigError::MissingProjectId)
    } else if !count_in_range(s.issue_count) {
        Some(ConfigError::IssueCountOutOfRange)
    } else if !type_allowed(s.issue_type) {
        Some(ConfigError::InvalidIssueType)
    } else {
        None
    }
}

/// The first problem of a configuration: a target must be present, then the
/// multi-target section is checked, then the single-target one.
pub open spec fn config_problem(c: Config) -> Option<ConfigError> {
    if c.single_target is None && c.multi_target is None {
        Some(ConfigError::NoTarget)
    } else if c.multi_target is Some && multi_target_problem(c.multi_target->0) is Some {
        multi_target_problem(c.multi_target->0)
    } else if c.single_target is Some {
        single_target_problem(c.single_target->0)
    } else {
        None
    }
}

fn check_issue_type(t: &Option<String>) -> (r: bool)
    ensures
        r == type_allowed(*t),
{
    match t {
        Some(v) => is_known_issue_type(v.as_str()),
        None => true,
    }
}

fn check_multi_target(m: &MultiTargetConfig) -> (r: Option<ConfigError>)
    ensures
        r == multi_target_problem(*m),
{
    if m.users.len() == 0 {
        Some(ConfigError::NoUsers)
    } else if m.issue_count < MIN_ISSUE_COUNT || m.issue_count > MAX_ISSUE_COUNT {
        Some(ConfigError::IssueCountOutOfRange)
    } else if !check_issue_type(&m.issue_type) {
        Some(ConfigError::InvalidIssueType)
    } else {
        None
    }
}

fn check_single_target(s: &SingleTargetConfig) -> (r: Option<ConfigError>)
    ensures
        r == single_target_problem(*s),
{
    if s.project_id.as_str().unicode_len() == 0 {
        Some(ConfigError::MissingProjectId)
    } else if s.issue_count < MIN_ISSUE_COUNT || s.issue_count > MAX_ISSUE_COUNT {
        Some(ConfigError::IssueCountOutOfRange)
    } else if !check_issue_type(&s.issue_type) {
        Some(ConfigError::InvalidIssueType)
    } else {
        None
    }
}

impl Config {
    /// Validates a parsed configuration: it comes back unchanged when it has no
    /// problem, else the first problem is reported.
    pub fn build(config: Config) -> (r: Result<Config, ConfigError>)
        ensures
            match config_problem(config) {
                Some(e) => r == Err::<Config, ConfigError>(e),
                None => r == Ok::<Config, ConfigError>(config),
            },
    {
        if config.single_target.is_none() && config.multi_target.is_none() {
            return Err(ConfigError::NoTarget);
        }
        match &config.multi_target {
            Some(m) => match check_multi_target(m) {
                Some(e) => {
                    return Err(e);
                },
                None => {},
            },
            None => {},
        }
        match &config.single_target {
            Some(s) => match check_single_target(s) {
                Some(e) => {
                    return Err(e);
                },
                None => {},
            },
            None => {},
        }
        Ok(config)
    }
}

} // verus!
