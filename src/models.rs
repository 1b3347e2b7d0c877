//! Records exchanged with the issue tracker.
use crate::stats::Outcome;
use vstd::prelude::*;

verus! {

#[derive(Clone, Debug)]
pub struct Account {
    pub id: String,
    pub tier: String,
    pub kind: String,
    pub user_id: String,
}

#[derive(Clone, Debug)]
pub struct AccountPartial {
    pub id: Option<String>,
    pub tier: Option<String>,
    pub kind: Option<String>,
    pub user_id: Option<String>,
}

#[derive(Clone, Debug)]
pub struct ActivityLog {
    pub actor: Option<Actor>,
    pub aggregate: String,
    pub aggregate_id: String,
    pub organisation_id: Option<String>,
    pub project_id: Option<String>,
    pub issue_id: Option<String>,
    pub created_at: String,
    pub event: String,
    pub id: String,
    pub message: String,
    pub url: Option<String>,
}

#[derive(Clone, Debug)]
pub struct Actor {
    pub id: Option<String>,
    pub user: Option<User>,
    pub accounts: Option<Vec<Account>>,
    pub kind: Option<String>,
    pub user_roles: Option<Vec<String>>,
}

/// The body of a successful login exchange; its fields may be missing.
#[derive(Clone, Debug)]
pub struct AuthSuccess {
    pub user: Option<User>,
    pub token: Option<String>,
    pub project_id: Option<String>,
    pub mfa_required: Option<bool>,
    pub mfa_validated: Option<bool>,
    pub mfa_auth_token: Option<String>,
}

/// Credentials exchanged for a session.
#[derive(Clone, Debug)]
pub struct AuthPayload {
    pub username: String,
    pub password: String,
    pub captcha_token: String,
}

#[derive(Clone, Debug)]
pub struct Authz {
    pub groups: Vec<String>,
    pub id: String,
    pub permissions: Vec<String>,
    pub roles: Vec<String>,
}

#[derive(Clone, Debug)]
pub struct Avatar {
    pub id: Option<String>,
    pub url: String,
    pub versions: Option<AvatarVersions>,
}

#[derive(Clone, Debug)]
pub struct AvatarVersions {
    pub x: Option<String>,
    pub xs: Option<String>,
}

#[derive(Clone, Debug)]
pub struct ChannelKey {
    pub cluster: String,
    pub key: String,
}

#[derive(Clone, Debug)]
pub struct Comment {
    pub id: String,
    pub topic_id: String,
    pub body: String,
    pub body_data: Option<String>,
    pub created_at: Option<String>,
    pub updated_at: Option<String>,
}

#[derive(Clone, Debug)]
pub struct File {
    pub id: String,
    pub category: String,
    pub user: Option<User>,
    pub project_id: Option<String>,
    pub account_id: Option<String>,
    pub labels: Vec<String>,
    pub content_type: String,
    pub name: String,
    pub filename: String,
    pub path: String,
    pub size: i64,
    pub url: String,
    pub is_image: bool,
    pub is_public: bool,
    pub versions: Option<Vec<FileVersion>>,
    pub state: String,
    pub created_at: String,
    pub updated_at: String,
}

#[derive(Clone, Debug)]
pub struct FileVersion {
    pub name: String,
    pub path: String,
    pub url: String,
}

#[derive(Clone, Debug)]
pub struct Issue {
    pub id: String,
    pub key: String,
    pub project_id: String,
    pub epic_id: Option<String>,
    pub parent_id: Option<String>,
    pub kind: String,
    pub title: String,
    pub description: Option<String>,
    pub estimate: Option<u32>,
    pub estimate_type: Option<String>,
    pub labels: Option<Vec<String>>,
    pub created_at: Option<String>,
    pub updated_at: Option<String>,
}

#[derive(Clone, Debug)]
pub struct IssuePartial {
    pub id: Option<String>,
    pub key: Option<String>,
    pub project_id: Option<String>,
    pub epic_id: Option<String>,
    pub parent_id: Option<String>,
    pub kind: Option<String>,
    pub title: Option<String>,
    pub description: Option<String>,
    pub estimate: Option<u32>,
    pub estimate_type: Option<String>,
    pub labels: Option<Vec<String>>,
    pub created_at: Option<String>,
    pub updated_at: Option<String>,
}

/// The payload that creates one issue.
#[derive(Clone, Debug)]
pub struct CreateIssueBody {
    pub kind: String,
    pub initiative_id: Option<String>,
    pub epic_id: Option<String>,
    pub parent_id: Option<String>,
    pub assignee_id: Option<String>,
    pub title: String,
    pub description: Option<String>,
    pub estimate_type: Option<String>,
    pub estimate: Option<u32>,
    pub status: Option<String>,
    pub labels: Vec<String>,
}

#[derive(Clone, Debug)]
pub struct IssueStatus {
    pub id: String,
    pub name: String,
}

#[derive(Clone, Debug)]
pub struct Label {
    pub id: String,
}

#[derive(Clone, Debug)]
pub struct Notification {
    pub id: String,
    pub kind: String,
    pub project_id: Option<String>,
    pub aggregate: Option<String>,
    pub aggregate_id: Option<String>,
    pub event: Option<String>,
    pub last_event: Option<String>,
    pub actor: Option<User>,
    pub message: String,
    pub url: Option<String>,
    pub read: bool,
    pub read_at: Option<String>,
    pub created_at: Option<String>,
    pub updated_at: Option<String>,
}

#[derive(Clone, Debug)]
pub struct Organisation {
    pub id: String,
    pub tier: String,
    pub kind: String,
    pub user_id: String,
    pub avatar: Option<Avatar>,
    pub owner: Option<UserPartial>,
    pub account: Option<AccountPartial>,
}

#[derive(Clone, Debug)]
pub struct OrganisationPartial {
    pub id: Option<String>,
    pub tier: Option<String>,
    pub kind: Option<String>,
    pub user_id: Option<String>,
    pub avatar: Option<Avatar>,
    pub owner: Option<UserPartial>,
    pub account: Option<AccountPartial>,
}

#[derive(Clone, Debug)]
pub struct OrganisationGroup {
    pub id: String,
    pub is_custom_group: bool,
    pub name: String,
    pub description: Option<String>,
    pub roles: Vec<String>,
    pub permissions: Option<Vec<String>>,
    pub is_org_wide: bool,
    pub created_at: Option<String>,
    pub updated_at: Option<String>,
}

#[derive(Clone, Debug)]
pub struct OrganisationMember {
    pub id: String,
    pub organisation: Option<Organisation>,
    pub user: Option<User>,
    pub email: Option<String>,
    pub groups: Vec<String>,
    pub status: String,
    pub is_unregistered_user: Option<bool>,
    pub invitation_token: Option<String>,
    pub created_at: Option<String>,
    pub updated_at: Option<String>,
}

/// Where a listing page stands within the whole listing.
#[derive(Clone, Debug)]
pub struct PaginationMeta {
    pub page: u32,
    pub per_page: u32,
    pub total_records: u32,
    pub total_pages: u32,
}

#[derive(Clone, Debug)]
pub struct Project {
    pub id: String,
    pub key: String,
    pub name: String,
    pub preferences: Option<ProjectPreferences>,
    pub created_at: Option<String>,
    pub updated_at: Option<String>,
}

#[derive(Clone, Debug)]
pub struct ProjectPartial {
    pub id: Option<String>,
    pub key: Option<String>,
    pub name: Option<String>,
    pub preferences: Option<ProjectPreferences>,
    pub created_at: Option<String>,
    pub updated_at: Option<String>,
}

#[derive(Clone, Debug)]
pub struct ProjectSlim {
    pub id: String,
    pub key: String,
    pub name: String,
}

/// The defaults a project sets for new issues.
#[derive(Clone, Debug)]
pub struct ProjectPreferences {
    pub issue_statuses: Vec<IssueStatus>,
    pub issue_type: String,
    pub estimate_type: String,
}

#[derive(Clone, Debug)]
pub struct CreateProjectBody {
    pub key: String,
    pub name: String,
    pub description: Option<String>,
    pub issue_type: Option<String>,
    pub workflow_type: Option<String>,
    pub estimate_type: Option<String>,
    pub backlog_on_board: Option<bool>,
}

#[derive(Clone, Debug)]
pub struct ProjectMember {
    pub id: String,
    pub user: Option<User>,
}

#[derive(Clone, Debug)]
pub struct Repository {
    pub id: String,
    pub project_id: String,
    pub name: String,
    pub description: Option<String>,
    pub integration: Option<RepositoryIntegration>,
    pub private: bool,
    pub created_at: Option<String>,
    pub updated_at: Option<String>,
}

#[derive(Clone, Debug)]
pub struct RepositoryIntegration {
    pub node_id: Option<String>,
    pub default_branch: Option<String>,
    pub provider: Option<String>,
    pub url: Option<String>,
    pub owner: Option<RepositoryOwner>,
}

#[derive(Clone, Debug)]
pub struct RepositoryOwner {
    pub node_id: String,
    pub username: String,
}

#[derive(Clone, Debug)]
pub struct Sprint {
    pub id: String,
    pub project_id: String,
    pub title: String,
    pub description: Option<String>,
    pub start_date: Option<String>,
    pub end_date: Option<String>,
    pub status: Option<String>,
    pub created_at: Option<String>,
    pub updated_at: Option<String>,
}

#[derive(Clone, Debug)]
pub struct User {
    pub id: String,
    pub username: String,
    pub email: Option<String>,
    pub status: String,
    pub created_at: Option<String>,
    pub updated_at: Option<String>,
    pub avatar: Option<Avatar>,
}

#[derive(Clone, Debug)]
pub struct UserPartial {
    pub id: Option<String>,
    pub username: Option<String>,
    pub email: Option<String>,
    pub status: Option<String>,
    pub created_at: Option<String>,
    pub updated_at: Option<String>,
    pub avatar: Option<Avatar>,
}

#[derive(Clone, Debug)]
pub struct UserPreference {
    pub id: String,
    pub value: UserPreferenceValue,
}

/// An authenticated session: where the service lives, the bearer token, and who logged in.
#[derive(Clone, Debug)]
pub struct AuthContext {
    pub api_url: String,
    pub token: String,
    pub user: User,
}

/// The value of a user preference.
#[derive(Clone, Debug)]
pub enum UserPreferenceValue {
    Flag(bool),
    Stringy(String),
}

/// One page of a listing.
#[derive(Clone, Debug)]
pub struct PaginationResult<T> {
    pub meta: PaginationMeta,
    pub data: Vec<T>,
}

/// What one timed request produced: its duration in milliseconds and, when it
/// succeeded, its result.
#[derive(Clone, Debug)]
pub struct ResponseData<T> {
    pub duration: u64,
    pub data: Option<T>,
}

impl<T> ResponseData<T> {
    /// The outcome recorded for this response: successful exactly when a result is present.
    pub fn outcome(&self) -> (r: Outcome)
        ensures
            r.duration_ms == self.duration,
            r.success == self.data is Some,
    {
        Outcome { duration_ms: self.duration, success: self.data.is_some() }
    }
}

} // verus!
