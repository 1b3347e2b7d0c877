//! Synthesis of issue-creation payloads from a project's reference data.
use crate::models::{CreateProjectBody, CreateIssueBody, Issue, IssueStatus, Label, ProjectMember, ProjectPreferences};
use crate::picker::{draw_pick, get_random_item, pick_with, picked, ROLL_MAX};
use crate::project_key::{generate_project_key, initials};
use crate::text::decimal_digits;
use crate::text::{join_with, joined, same_text};
use fake::Fake;
use vstd::prelude::*;

verus! {

/// Chance, in percent, that an issue gets an assignee.
pub const ASSIGNEE_CHANCE: u32 = 30;

/// Chance, in percent, that an issue gets a label.
pub const LABEL_CHANCE: u32 = 30;

/// Chance, in percent, that an issue gets a parent epic or initiative.
pub const PARENT_CHANCE: u32 = 20;

/// Chance, in percent, that a leaf issue gets a workflow status.
pub const STATUS_CHANCE: u32 = 100;

/// Number of phrases joined into a description.
pub const DESCRIPTION_PHRASES: usize = 4;

/// Relies on fake's `CatchPhrase` faker (`Fake::fake`): a random phrase, of which
/// nothing is promised.
#[verifier::external_body]
fn catch_phrase() -> String {
    fake::faker::company::en::CatchPhrase().fake::<String>()
}

/// Where an issue type stands in the hierarchy.
#[derive(Clone, Copy, Debug, PartialEq, Eq, Structural)]
pub enum IssueLevel {
    Initiative,
    Epic,
    Leaf,
}

pub open spec fn level_of(kind: Seq<char>) -> IssueLevel {
    if kind == "initiative"@ {
        IssueLevel::Initiative
    } else if kind == "epic"@ {
        IssueLevel::Epic
    } else {
        IssueLevel::Leaf
    }
}

/// The level of the issue type `kind`.
pub fn issue_level(kind: &str) -> (r: IssueLevel)
    ensures
        r == level_of(kind@),
{
    if same_text(kind, "initiative") {
        IssueLevel::Initiative
    } else if same_text(kind, "epic") {
        IssueLevel::Epic
    } else {
        IssueLevel::Leaf
    }
}

pub open spec fn point_estimates() -> Seq<u32> {
    seq![1u32, 2, 3, 5, 8, 13, 21]
}

pub open spec fn hour_estimates() -> Seq<u32> {
    seq![1u32, 2, 3, 4, 5, 6, 7, 8, 9, 10, 11, 12, 13, 14, 15, 16, 17, 18, 19, 20]
}

/// The estimates an issue may get under a project's estimate unit.
pub open spec fn estimate_choices(estimate_type: Seq<char>) -> Seq<u32> {
    if estimate_type == "points"@ {
        point_estimates()
    } else {
        hour_estimates()
    }
}

/// The estimates an issue may get under the estimate unit `estimate_type`.
pub fn estimate_options(estimate_type: &str) -> (r: Vec<u32>)
    ensures
        r@ == estimate_choices(estimate_type@),
{
    if same_text(estimate_type, "points") {
        vec![1, 2, 3, 5, 8, 13, 21]
    } else {
        vec![1, 2, 3, 4, 5, 6, 7, 8, 9, 10, 11, 12, 13, 14, 15, 16, 17, 18, 19, 20]
    }
}

/// One estimate drawn from those of the unit `estimate_type`.
pub fn draw_estimate(estimate_type: &str) -> (r: u32)
    ensures
        estimate_choices(estimate_type@).contains(r),
{
    let options = estimate_options(estimate_type);
    let picked = get_random_item(&options, ROLL_MAX);
    assert(picked is Some);
    let value = *picked.unwrap();
    assert(estimate_choices(estimate_type@).contains(value));
    value
}

pub open spec fn issue_with_id(id: Seq<char>, items: Seq<Issue>) -> bool {
    exists|i: int| 0 <= i < items.len() && items[i].id@ == id
}

pub open spec fn status_with_id(id: Seq<char>, items: Seq<IssueStatus>) -> bool {
    exists|i: int| 0 <= i < items.len() && items[i].id@ == id
}

pub open spec fn label_with_id(id: Seq<char>, items: Seq<Label>) -> bool {
    exists|i: int| 0 <= i < items.len() && items[i].id@ == id
}

pub open spec fn member_with_user_id(id: Seq<char>, items: Seq<ProjectMember>) -> bool {
    exists|i: int| 0 <= i < items.len() && (#[trigger] items[i].user matches Some(u) && u.id@ == id)
}

/// The relations an issue of type `issue_type` may carry: an initiative carries no
/// parent and no status, an epic may carry an initiative parent but no status, any
/// other type may carry an epic parent and always carries a status when the project
/// has one to give.
pub open spec fn relations_fit_level(
    initiative_id: Option<String>,
    epic_id: Option<String>,
    status: Option<String>,
    issue_type: Seq<char>,
    initiatives: Seq<Issue>,
    epics: Seq<Issue>,
    statuses: Seq<IssueStatus>,
) -> bool {
    match level_of(issue_type) {
        IssueLevel::Initiative => initiative_id is None && epic_id is None && status is None,
        IssueLevel::Epic => {
            &&& epic_id is None
            &&& status is None
            &&& initiative_id matches Some(x) ==> issue_with_id(x@, initiatives)
        },
        IssueLevel::Leaf => {
            &&& initiative_id is None
            &&& epic_id matches Some(x) ==> issue_with_id(x@, epics)
            &&& status matches Some(x) ==> status_with_id(x@, statuses)
            &&& (status is Some <==> statuses.len() > 0)
        },
    }
}

/// What every synthesized payload satisfies, whatever was drawn.
pub open spec fn payload_follows_rules(
    p: CreateIssueBody,
    issue_type: Seq<char>,
    pref: ProjectPreferences,
    members: Seq<ProjectMember>,
    labels: Seq<Label>,
    initiatives: Seq<Issue>,
    epics: Seq<Issue>,
    statuses: Seq<IssueStatus>,
) -> bool {
    &&& p.kind@ == issue_type
    &&& p.parent_id is None
    &&& p.description matches Some(d) && is_phrase_list(d@)
    &&& p.estimate_type matches Some(t) && t@ == pref.estimate_type@
    &&& p.estimate matches Some(e) && estimate_choices(pref.estimate_type@).contains(e)
    &&& p.assignee_id matches Some(a) ==> member_with_user_id(a@, members)
    &&& p.labels@.len() <= 1
    &&& forall|j: int| 0 <= j < p.labels@.len() ==> label_with_id(#[trigger] p.labels@[j]@, labels)
    &&& relations_fit_level(p.initiative_id, p.epic_id, p.status, issue_type, initiatives, epics, statuses)
}

/// The draws that decide the optional fields of one issue: for each relation a
/// roll in `[0, ROLL_MAX]` and an index into its list.
#[derive(Clone, Copy, Debug)]
pub struct PayloadDraws {
    pub assignee_roll: u32,
    pub assignee_key: usize,
    pub label_roll: u32,
    pub label_key: usize,
    pub parent_roll: u32,
    pub parent_key: usize,
    pub status_roll: u32,
    pub status_key: usize,
}

/// The list an issue of type `issue_type` draws its parent from, by length: the
/// initiatives for an epic, the epics for a leaf, none for an initiative.
pub open spec fn parent_pool_len(issue_type: Seq<char>, initiatives: nat, epics: nat) -> nat {
    match level_of(issue_type) {
        IssueLevel::Initiative => 0,
        IssueLevel::Epic => initiatives,
        IssueLevel::Leaf => epics,
    }
}

/// The draws index into every non-empty list they pick from.
pub open spec fn draws_fit(
    d: PayloadDraws,
    issue_type: Seq<char>,
    members: nat,
    labels: nat,
    initiatives: nat,
    epics: nat,
    statuses: nat,
) -> bool {
    &&& members > 0 ==> d.assignee_key < members
    &&& labels > 0 ==> d.label_key < labels
    &&& parent_pool_len(issue_type, initiatives, epics) > 0 ==> d.parent_key < parent_pool_len(
        issue_type,
        initiatives,
        epics,
    )
    &&& level_of(issue_type) == IssueLevel::Leaf && statuses > 0 ==> d.status_key < statuses
}

/// The assignee a picked member gives: the member's user, if any.
pub open spec fn assignee_of(m: Option<ProjectMember>) -> Option<String> {
    match m {
        Some(pm) => match pm.user {
            Some(u) => Some(u.id),
            None => None,
        },
        None => None,
    }
}

pub open spec fn issue_id_of(i: Option<Issue>) -> Option<String> {
    match i {
        Some(x) => Some(x.id),
        None => None,
    }
}

pub open spec fn status_id_of(s: Option<IssueStatus>) -> Option<String> {
    match s {
        Some(x) => Some(x.id),
        None => None,
    }
}

pub open spec fn label_ids_of(l: Option<Label>) -> Seq<String> {
    match l {
        Some(x) => seq![x.id],
        None => Seq::empty(),
    }
}

/// The creation payload of an issue of type `issue_type` once every draw is
/// known: the assignee with chance `ASSIGNEE_CHANCE`, a label with chance
/// `LABEL_CHANCE`, a parent with chance `PARENT_CHANCE` (an initiative for an
/// epic, an epic for a leaf, none for an initiative) and, for a leaf, a status
/// with chance `STATUS_CHANCE`.
pub fn compose_issue_payload(
    issue_type: &str,
    pref: &ProjectPreferences,
    members: &Vec<ProjectMember>,
    labels: &Vec<Label>,
    initiatives: &Vec<Issue>,
    epics: &Vec<Issue>,
    statuses: &Vec<IssueStatus>,
    draws: &PayloadDraws,
    title: String,
    description: String,
    estimate: u32,
) -> (r: CreateIssueBody)
    requires
        draws_fit(
            *draws,
            issue_type@,
            members@.len(),
            labels@.len(),
            initiatives@.len(),
            epics@.len(),
            statuses@.len(),
        ),
    ensures
        r.kind@ == issue_type@,
        r.title == title,
        r.description == Some(description),
        r.parent_id is None,
        r.estimate_type == Some(pref.estimate_type),
        r.estimate == Some(estimate),
        r.assignee_id == assignee_of(
            picked(members@, ASSIGNEE_CHANCE as nat, draws.assignee_roll as nat, draws.assignee_key as int),
        ),
        r.labels@ == label_ids_of(
            picked(labels@, LABEL_CHANCE as nat, draws.label_roll as nat, draws.label_key as int),
        ),
        r.initiative_id == if level_of(issue_type@) == IssueLevel::Epic {
            issue_id_of(
                picked(initiatives@, PARENT_CHANCE as nat, draws.parent_roll as nat, draws.parent_key as int),
            )
        } else {
            None
        },
        r.epic_id == if level_of(issue_type@) == IssueLevel::Leaf {
            issue_id_of(
                picked(epics@, PARENT_CHANCE as nat, draws.parent_roll as nat, draws.parent_key as int),
            )
        } else {
            None
        },
        r.status == if level_of(issue_type@) == IssueLevel::Leaf {
            status_id_of(
                picked(statuses@, STATUS_CHANCE as nat, draws.status_roll as nat, draws.status_key as int),
            )
        } else {
            None
        },
{
    let assignee_id: Option<String> = match pick_with(members, ASSIGNEE_CHANCE, draws.assignee_roll, draws.assignee_key) {
        Some(m) => match &m.user {
            Some(u) => Some(u.id.clone()),
            None => None,
        },
        None => None,
    };
    let mut chosen_labels: Vec<String> = Vec::new();
    match pick_with(labels, LABEL_CHANCE, draws.label_roll, draws.label_key) {
        Some(l) => {
            chosen_labels.push(l.id.clone());
        },
        None => {},
    }
    assert(chosen_labels@ =~= label_ids_of(
        picked(labels@, LABEL_CHANCE as nat, draws.label_roll as nat, draws.label_key as int),
    ));
    let mut initiative_id: Option<String> = None;
    let mut epic_id: Option<String> = None;
    let mut status: Option<String> = None;
    match issue_level(issue_type) {
        IssueLevel::Initiative => {},
        IssueLevel::Epic => {
            match pick_with(initiatives, PARENT_CHANCE, draws.parent_roll, draws.parent_key) {
                Some(x) => {
                    initiative_id = Some(x.id.clone());
                },
                None => {},
            }
        },
        IssueLevel::Leaf => {
            match pick_with(epics, PARENT_CHANCE, draws.parent_roll, draws.parent_key) {
                Some(x) => {
                    epic_id = Some(x.id.clone());
                },
                None => {},
            }
            match pick_with(statuses, STATUS_CHANCE, draws.status_roll, draws.status_key) {
                Some(x) => {
                    status = Some(x.id.clone());
                },
                None => {},
            }
        },
    }
    CreateIssueBody {
        kind: issue_type.to_owned(),
        initiative_id,
        epic_id,
        parent_id: None,
        assignee_id,
        title,
        description: Some(description),
        estimate_type: Some(pref.estimate_type.clone()),
        estimate: Some(estimate),
        status,
        labels: chosen_labels,
    }
}

/// Draws the rolls and indices for one issue of type `issue_type`.
fn draw_payload(
    issue_type: &str,
    members: usize,
    labels: usize,
    initiatives: usize,
    epics: usize,
    statuses: usize,
) -> (r: PayloadDraws)
    ensures
        draws_fit(r, issue_type@, members as nat, labels as nat, initiatives as nat, epics as nat, statuses as nat),
        r.status_roll <= ROLL_MAX,
{
    let (assignee_roll, assignee_key) = draw_pick(members);
    let (label_roll, label_key) = draw_pick(labels);
    let parents = match issue_level(issue_type) {
        IssueLevel::Initiative => 0,
        IssueLevel::Epic => initiatives,
        IssueLevel::Leaf => epics,
    };
    let (parent_roll, parent_key) = draw_pick(parents);
    let (status_roll, status_key) = draw_pick(statuses);
    PayloadDraws {
        assignee_roll,
        assignee_key,
        label_roll,
        label_key,
        parent_roll,
        parent_key,
        status_roll,
        status_key,
    }
}

/// Whether `d` is made of `DESCRIPTION_PHRASES` phrases joined by ", ".
pub open spec fn is_phrase_list(d: Seq<char>) -> bool {
    exists|phrases: Seq<Seq<char>>|
        phrases.len() == DESCRIPTION_PHRASES && d == joined(phrases, ", "@)
}

/// A random description: catch phrases joined by ", ".
fn random_description() -> (r: String)
    ensures
        is_phrase_list(r@),
{
    let mut phrases: Vec<String> = Vec::new();
    let mut i: usize = 0;
    while i < DESCRIPTION_PHRASES
        invariant
            i <= DESCRIPTION_PHRASES,
            phrases@.len() == i,
        decreases DESCRIPTION_PHRASES - i,
    {
        phrases.push(catch_phrase());
        i = i + 1;
    }
    let r = join_with(&phrases, ", ");
    assert(phrases@.map_values(|p: String| p@).len() == DESCRIPTION_PHRASES);
    r
}

/// One creation payload for an issue of type `issue_type`, with random text, an
/// estimate of the project's unit and relations drawn from the reference data.
pub fn synthesize_issue_payload(
    issue_type: &str,
    pref: &ProjectPreferences,
    members: &Vec<ProjectMember>,
    labels: &Vec<Label>,
    initiatives: &Vec<Issue>,
    epics: &Vec<Issue>,
    statuses: &Vec<IssueStatus>,
) -> (r: CreateIssueBody)
    ensures
        payload_follows_rules(
            r,
            issue_type@,
            *pref,
            members@,
            labels@,
            initiatives@,
            epics@,
            statuses@,
        ),
{
    let draws = draw_payload(
        issue_type,
        members.len(),
        labels.len(),
        initiatives.len(),
        epics.len(),
        statuses.len(),
    );
    let title = catch_phrase();
    let description = random_description();
    let estimate = draw_estimate(pref.estimate_type.as_str());
    let r = compose_issue_payload(
        issue_type,
        pref,
        members,
        labels,
        initiatives,
        epics,
        statuses,
        &draws,
        title,
        description,
        estimate,
    );
    proof {
        let ak = draws.assignee_key as int;
        let lk = draws.label_key as int;
        let pk = draws.parent_key as int;
        let sk = draws.status_key as int;
        if r.assignee_id is Some {
            assert(members@[ak].user matches Some(u) && u.id@ == r.assignee_id->0@);
        }
        if r.labels@.len() > 0 {
            assert(r.labels@[0]@ == labels@[lk].id@);
        }
        if r.initiative_id is Some {
            assert(initiatives@[pk].id@ == r.initiative_id->0@);
        }
        if r.epic_id is Some {
            assert(epics@[pk].id@ == r.epic_id->0@);
        }
        if r.status is Some {
            assert(statuses@[sk].id@ == r.status->0@);
        }
    }
    r
}

/// The statuses new issues may take: all but the last one, which closes an issue.
pub fn workable_statuses(statuses: Vec<IssueStatus>) -> (r: Vec<IssueStatus>)
    ensures
        r@ == if statuses@.len() > 0 {
            statuses@.drop_last()
        } else {
            statuses@
        },
{
    let mut statuses = statuses;
    if statuses.len() > 0 {
        statuses.pop();
    }
    statuses
}

/// The type of the issues to create: the one requested, else the project's default.
pub open spec fn chosen_issue_type(requested: Option<String>, pref: ProjectPreferences) -> Seq<char> {
    match requested {
        Some(t) => t@,
        None => pref.issue_type@,
    }
}

/// The type of the issues to create: the one requested, else the project's default.
pub fn effective_issue_type(requested: &Option<String>, pref: &ProjectPreferences) -> (r: String)
    ensures
        r@ == chosen_issue_type(*requested, *pref),
{
    match requested {
        Some(t) => t.clone(),
        None => pref.issue_type.clone(),
    }
}

/// `count` creation payloads for issues of type `issue_type`, each drawn anew.
pub fn synthesize_issue_payloads(
    count: u32,
    issue_type: &str,
    pref: &ProjectPreferences,
    members: &Vec<ProjectMember>,
    labels: &Vec<Label>,
    initiatives: &Vec<Issue>,
    epics: &Vec<Issue>,
    statuses: &Vec<IssueStatus>,
) -> (r: Vec<CreateIssueBody>)
    ensures
        r@.len() == count,
        forall|i: int|
            0 <= i < r@.len() ==> payload_follows_rules(
                #[trigger] r@[i],
                issue_type@,
                *pref,
                members@,
                labels@,
                initiatives@,
                epics@,
                statuses@,
            ),
{
    let mut out: Vec<CreateIssueBody> = Vec::new();
    let mut i: u32 = 0;
    while i < count
        invariant
            i <= count,
            out@.len() == i,
            forall|k: int|
                0 <= k < out@.len() ==> payload_follows_rules(
                    #[trigger] out@[k],
                    issue_type@,
                    *pref,
                    members@,
                    labels@,
                    initiatives@,
                    epics@,
                    statuses@,
                ),
        decreases count - i,
    {
        let p = synthesize_issue_payload(issue_type, pref, members, labels, initiatives, epics, statuses);
        out.push(p);
        i = i + 1;
    }
    out
}

/// The creation payload of a project named `name`: a key made from the name, a
/// scrum workflow of user stories estimated in hours, the backlog on the board.
pub fn project_payload(name: String, description: String) -> (r: CreateProjectBody)
    ensures
        r.name == name,
        r.description == Some(description),
        exists|number: nat|
            1 <= number <= 99 && r.key@ == initials(name@) + decimal_digits(number),
        r.issue_type matches Some(t) && t@ == "user_story"@,
        r.workflow_type matches Some(t) && t@ == "scrum"@,
        r.estimate_type matches Some(t) && t@ == "hours"@,
        r.backlog_on_board == Some(true),
{
    let key = generate_project_key(name.as_str());
    CreateProjectBody {
        key,
        name,
        description: Some(description),
        issue_type: Some("user_story".to_owned()),
        workflow_type: Some("scrum".to_owned()),
        estimate_type: Some("hours".to_owned()),
        backlog_on_board: Some(true),
    }
}

/// A project creation payload with a random name and description.
pub fn synthesize_project_payload() -> (r: CreateProjectBody)
    ensures
        exists|number: nat|
            1 <= number <= 99 && r.key@ == initials(r.name@) + decimal_digits(number),
        r.description matches Some(d) && is_phrase_list(d@),
        r.issue_type matches Some(t) && t@ == "user_story"@,
        r.workflow_type matches Some(t) && t@ == "scrum"@,
        r.estimate_type matches Some(t) && t@ == "hours"@,
        r.backlog_on_board == Some(true),
{
    let name = catch_phrase();
    let description = random_description();
    project_payload(name, description)
}

} // verus!
