//! Addresses and query parameters of the service's endpoints.
use crate::text::{decimal_digits, decimal_text};
use vstd::prelude::*;

verus! {

/// Client identifier sent with every request.
pub const USER_AGENT: &'static str = "Mozilla/5.0 (Windows NT 10.0; Win64; x64) AppleWebKit/537.36 (KHTML, like Gecko) Chrome/118.0.0.0 Safari/537.36";

/// Content type of every request body.
pub const JSON_CONTENT_TYPE: &'static str = "application/json";

/// Path of the login exchange.
pub const LOGIN_PATH: &'static str = "/auth/token/email";

/// Path of the current actor.
pub const IAM_PATH: &'static str = "/iam";

/// Path of the current organisation.
pub const ORGANISATION_PATH: &'static str = "/iam/organisation";

/// Path of the current user.
pub const USER_PATH: &'static str = "/user";

/// Path of the current user's preferences.
pub const USER_PREFERENCES_PATH: &'static str = "/user/preferences";

/// Path of the project listing.
pub const PROJECTS_PATH: &'static str = "/projects";

/// Path of the listing of all issues.
pub const ISSUES_PATH: &'static str = "/issues";

/// Fields the issue listings include.
pub const LISTING_INCLUDE: &'static str = "createdBy,assignee,developmentUpdates,isFollower,subtasksCount";

/// Fields the paginated issue listing includes.
pub const PAGED_LISTING_INCLUDE: &'static str = "createdBy,assignee,developmentUpdates,isFollower,subtasksCount,meta";

/// Fields the issue detail includes.
pub const ISSUE_DETAIL_INCLUDE: &'static str = "isCreator,isAssignee,isFollower,initiative,epic,parent,commitment,subtasksCount";

/// Fields the project listing includes.
pub const PROJECT_LISTING_INCLUDE: &'static str = "meta,activeSprint,members,organisation";

/// Number of parent issues asked for.
pub const PARENT_PAGE_SIZE: u32 = 50;

/// `api_url` followed by `path`.
pub fn service_url(api_url: &str, path: &str) -> (r: String)
    ensures
        r@ == api_url@ + path@,
{
    let mut s = String::new();
    s.append(api_url);
    s.append(path);
    s
}

/// The address of `tail` under project `project_id`.
pub fn project_resource_url(api_url: &str, project_id: &str, tail: &str) -> (r: String)
    ensures
        r@ == api_url@ + "/projects/"@ + project_id@ + tail@,
{
    let mut s = String::new();
    s.append(api_url);
    s.append("/projects/");
    s.append(project_id);
    s.append(tail);
    s
}

/// The address of the detail of issue `issue_id` of project `project_id`.
pub fn issue_url(api_url: &str, project_id: &str, issue_id: &str) -> (r: String)
    ensures
        r@ == api_url@ + "/projects/"@ + project_id@ + "/issues/"@ + issue_id@,
{
    let mut s = project_resource_url(api_url, project_id, "/issues/");
    s.append(issue_id);
    s
}

/// The address of the issue listing: of one project, or of all projects.
pub fn issue_listing_url(api_url: &str, project_id: Option<&str>) -> (r: String)
    ensures
        project_id matches Some(p) ==> r@ == api_url@ + "/projects/"@ + p@ + "/issues"@,
        project_id is None ==> r@ == api_url@ + ISSUES_PATH@,
{
    match project_id {
        Some(p) => project_resource_url(api_url, p, "/issues"),
        None => service_url(api_url, ISSUES_PATH),
    }
}

/// The address of the members of project `project_id` who are active.
pub fn project_members_url(api_url: &str, project_id: &str) -> (r: String)
    ensures
        r@ == api_url@ + "/iam/projects/"@ + project_id@ + "/members/?status=active"@,
{
    let mut s = String::new();
    s.append(api_url);
    s.append("/iam/projects/");
    s.append(project_id);
    s.append("/members/?status=active");
    s
}

/// The address of the current user's permissions on project `project_id`.
pub fn project_authz_url(api_url: &str, project_id: &str) -> (r: String)
    ensures
        r@ == api_url@ + "/user/authContext/projects/"@ + project_id@,
{
    service_url_with_id(api_url, "/user/authContext/projects/", project_id)
}

fn service_url_with_id(api_url: &str, path: &str, id: &str) -> (r: String)
    ensures
        r@ == api_url@ + path@ + id@,
{
    let mut s = service_url(api_url, path);
    s.append(id);
    s
}

/// A query parameter.
pub fn param(name: &str, value: &str) -> (r: (String, String))
    ensures
        r.0@ == name@,
        r.1@ == value@,
{
    (name.to_owned(), value.to_owned())
}

pub open spec fn is_param(p: (String, String), name: Seq<char>, value: Seq<char>) -> bool {
    p.0@ == name && p.1@ == value
}

/// The query of one page of an issue listing, newest first.
pub fn issue_listing_query(page: u32, per_page: u32) -> (r: Vec<(String, String)>)
    ensures
        r@.len() == 5,
        is_param(r@[0], "state"@, "active"@),
        is_param(r@[1], "page"@, decimal_digits(page as nat)),
        is_param(r@[2], "per_page"@, decimal_digits(per_page as nat)),
        is_param(r@[3], "sort"@, "-createdAt"@),
        is_param(r@[4], "include"@, PAGED_LISTING_INCLUDE@),
{
    let mut q: Vec<(String, String)> = Vec::new();
    q.push(param("state", "active"));
    q.push(param("page", decimal_text(page as u128).as_str()));
    q.push(param("per_page", decimal_text(per_page as u128).as_str()));
    q.push(param("sort", "-createdAt"));
    q.push(param("include", PAGED_LISTING_INCLUDE));
    q
}

/// The query of the first page of active issues of type `kind` (initiatives or
/// epics), newest first.
pub fn parent_issues_query(kind: &str) -> (r: Vec<(String, String)>)
    ensures
        r@.len() == 6,
        is_param(r@[0], "type"@, kind@),
        is_param(r@[1], "state"@, "active"@),
        is_param(r@[2], "page"@, "1"@),
        is_param(r@[3], "per_page"@, decimal_digits(PARENT_PAGE_SIZE as nat)),
        is_param(r@[4], "sort"@, "-createdAt"@),
        is_param(r@[5], "include"@, LISTING_INCLUDE@),
{
    let mut q: Vec<(String, String)> = Vec::new();
    q.push(param("type", kind));
    q.push(param("state", "active"));
    q.push(param("page", "1"));
    q.push(param("per_page", decimal_text(PARENT_PAGE_SIZE as u128).as_str()));
    q.push(param("sort", "-createdAt"));
    q.push(param("include", LISTING_INCLUDE));
    q
}

/// The query of the issue detail.
pub fn issue_detail_query() -> (r: Vec<(String, String)>)
    ensures
        r@.len() == 1,
        is_param(r@[0], "include"@, ISSUE_DETAIL_INCLUDE@),
{
    let mut q: Vec<(String, String)> = Vec::new();
    q.push(param("include", ISSUE_DETAIL_INCLUDE));
    q
}

/// The query of the project detail.
pub fn project_detail_query() -> (r: Vec<(String, String)>)
    ensures
        r@.len() == 1,
        is_param(r@[0], "include"@, "organisation"@),
{
    let mut q: Vec<(String, String)> = Vec::new();
    q.push(param("include", "organisation"));
    q
}

/// The query of one page of the active projects, most recently active first.
pub fn project_listing_query(page: u32, per_page: u32) -> (r: Vec<(String, String)>)
    ensures
        r@.len() == 5,
        is_param(r@[0], "status"@, "active"@),
        is_param(r@[1], "page"@, decimal_digits(page as nat)),
        is_param(r@[2], "per_page"@, decimal_digits(per_page as nat)),
        is_param(r@[3], "sort"@, "-lastActivityDate"@),
        is_param(r@[4], "include"@, PROJECT_LISTING_INCLUDE@),
{
    let mut q: Vec<(String, String)> = Vec::new();
    q.push(param("status", "active"));
    q.push(param("page", decimal_text(page as u128).as_str()));
    q.push(param("per_page", decimal_text(per_page as u128).as_str()));
    q.push(param("sort", "-lastActivityDate"));
    q.push(param("include", PROJECT_LISTING_INCLUDE));
    q
}

} // verus!
