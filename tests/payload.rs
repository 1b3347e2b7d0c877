use tracker_load::models::{
    CreateIssueBody, Issue, IssueStatus, Label, ProjectMember, ProjectPreferences, User,
};
use tracker_load::payload::{
    compose_issue_payload, PayloadDraws,
    draw_estimate, effective_issue_type, estimate_options, issue_level, project_payload,
    synthesize_issue_payload, synthesize_issue_payloads, synthesize_project_payload,
    workable_statuses, IssueLevel,
};
use tracker_load::picker::{get_random_item, item_chance, pick_with};

fn issue(id: &str) -> Issue {
    Issue {
        id: id.to_string(),
        key: "K-1".to_string(),
        project_id: "p".to_string(),
        epic_id: None,
        parent_id: None,
        kind: "epic".to_string(),
        title: "t".to_string(),
        description: None,
        estimate: None,
        estimate_type: None,
        labels: None,
        created_at: None,
        updated_at: None,
    }
}

fn user(id: &str) -> User {
    User {
        id: id.to_string(),
        username: "u".to_string(),
        email: None,
        status: "active".to_string(),
        created_at: None,
        updated_at: None,
        avatar: None,
    }
}

fn status(id: &str) -> IssueStatus {
    IssueStatus { id: id.to_string(), name: id.to_string() }
}

fn pref(estimate_type: &str) -> ProjectPreferences {
    ProjectPreferences {
        issue_statuses: vec![],
        issue_type: "user_story".to_string(),
        estimate_type: estimate_type.to_string(),
    }
}

struct Reference {
    members: Vec<ProjectMember>,
    labels: Vec<Label>,
    initiatives: Vec<Issue>,
    epics: Vec<Issue>,
    statuses: Vec<IssueStatus>,
}

fn reference() -> Reference {
    Reference {
        members: vec![
            ProjectMember { id: "m1".to_string(), user: Some(user("u1")) },
            ProjectMember { id: "m2".to_string(), user: None },
        ],
        labels: vec![Label { id: "l1".to_string() }, Label { id: "l2".to_string() }],
        initiatives: vec![issue("i1"), issue("i2")],
        epics: vec![issue("e1"), issue("e2")],
        statuses: vec![status("s1"), status("s2")],
    }
}

fn draw(kind: &str, estimate_type: &str, r: &Reference) -> CreateIssueBody {
    synthesize_issue_payload(
        kind,
        &pref(estimate_type),
        &r.members,
        &r.labels,
        &r.initiatives,
        &r.epics,
        &r.statuses,
    )
}

#[test]
fn initiative_carries_no_relations() {
    let r = reference();
    for _ in 0..300 {
        let p = draw("initiative", "hours", &r);
        assert_eq!(p.kind, "initiative");
        assert!(p.epic_id.is_none());
        assert!(p.initiative_id.is_none());
        assert!(p.status.is_none());
    }
}

#[test]
fn epic_may_carry_initiative_only() {
    let r = reference();
    let mut with_parent = 0;
    for _ in 0..300 {
        let p = draw("epic", "hours", &r);
        assert!(p.epic_id.is_none());
        assert!(p.status.is_none());
        if let Some(id) = p.initiative_id {
            assert!(id == "i1" || id == "i2");
            with_parent += 1;
        }
    }
    assert!(with_parent > 0);
}

#[test]
fn leaf_may_carry_epic_and_always_status() {
    let r = reference();
    for _ in 0..300 {
        let p = draw("bug", "hours", &r);
        assert!(p.initiative_id.is_none());
        if let Some(id) = &p.epic_id {
            assert!(id == "e1" || id == "e2");
        }
        let s = p.status.expect("a leaf issue gets a status");
        assert!(s == "s1" || s == "s2");
    }
}

#[test]
fn leaf_without_statuses_gets_none() {
    let mut r = reference();
    r.statuses.clear();
    let p = draw("task", "hours", &r);
    assert!(p.status.is_none());
}

#[test]
fn payload_fields_follow_reference_data() {
    let r = reference();
    for _ in 0..300 {
        let p = draw("task", "points", &r);
        assert_eq!(p.estimate_type.as_deref(), Some("points"));
        assert!([1, 2, 3, 5, 8, 13, 21].contains(&p.estimate.unwrap()));
        assert!(p.parent_id.is_none());
        assert_eq!(p.description.as_ref().unwrap().matches(", ").count() >= 3, true);
        if let Some(a) = &p.assignee_id {
            assert_eq!(a, "u1");
        }
        assert!(p.labels.len() <= 1);
        for l in &p.labels {
            assert!(l == "l1" || l == "l2");
        }
    }
}

#[test]
fn hour_estimates() {
    for _ in 0..200 {
        let e = draw_estimate("hours");
        assert!((1..=20).contains(&e));
    }
    assert_eq!(estimate_options("points"), vec![1, 2, 3, 5, 8, 13, 21]);
    assert_eq!(estimate_options("hours"), (1..=20).collect::<Vec<u32>>());
}

#[test]
fn batch_has_requested_size() {
    let r = reference();
    let batch = synthesize_issue_payloads(
        25,
        "feature",
        &pref("hours"),
        &r.members,
        &r.labels,
        &r.initiatives,
        &r.epics,
        &r.statuses,
    );
    assert_eq!(batch.len(), 25);
    assert!(batch.iter().all(|p| p.kind == "feature" && p.initiative_id.is_none()));
}

#[test]
fn levels_of_issue_types() {
    assert_eq!(issue_level("initiative"), IssueLevel::Initiative);
    assert_eq!(issue_level("epic"), IssueLevel::Epic);
    assert_eq!(issue_level("user_story"), IssueLevel::Leaf);
    assert_eq!(issue_level("Epic"), IssueLevel::Leaf);
}

#[test]
fn last_status_is_dropped() {
    let kept = workable_statuses(vec![status("todo"), status("doing"), status("done")]);
    assert_eq!(kept.iter().map(|s| s.id.as_str()).collect::<Vec<_>>(), vec!["todo", "doing"]);
    assert!(workable_statuses(vec![]).is_empty());
}

#[test]
fn requested_type_wins_over_default() {
    let p = pref("hours");
    assert_eq!(effective_issue_type(&Some("bug".to_string()), &p), "bug");
    assert_eq!(effective_issue_type(&None, &p), "user_story");
}

#[test]
fn project_payload_defaults() {
    let p = project_payload("Great new thing".to_string(), "d".to_string());
    assert!(p.key.starts_with("GNT"));
    assert_eq!(p.name, "Great new thing");
    assert_eq!(p.issue_type.as_deref(), Some("user_story"));
    assert_eq!(p.workflow_type.as_deref(), Some("scrum"));
    assert_eq!(p.estimate_type.as_deref(), Some("hours"));
    assert_eq!(p.backlog_on_board, Some(true));
    let q = synthesize_project_payload();
    assert!(!q.name.is_empty());
    assert!(q.description.is_some());
}

#[test]
fn picker_extremes() {
    let items = vec![1, 2, 3];
    let empty: Vec<u32> = vec![];
    for _ in 0..300 {
        assert!(get_random_item(&items, 100).is_some());
        assert!(get_random_item(&empty, 100).is_none());
        assert!(get_random_item(&empty, 0).is_none());
        if let Some(x) = get_random_item(&items, 50) {
            assert!(items.contains(x));
        }
    }
}

#[test]
fn chance_zero_hits_only_roll_zero() {
    assert!(item_chance(0, 0));
    for roll in 1..=100 {
        assert!(!item_chance(0, roll));
        assert!(item_chance(100, roll));
    }
    assert!(item_chance(30, 30));
    assert!(!item_chance(30, 31));
}

#[test]
fn pick_with_given_draws() {
    let items = vec![10, 20, 30];
    let empty: Vec<u32> = vec![];
    assert_eq!(pick_with(&items, 30, 30, 2), Some(&30));
    assert_eq!(pick_with(&items, 30, 31, 2), None);
    assert_eq!(pick_with(&items, 0, 0, 1), Some(&20));
    assert_eq!(pick_with(&empty, 100, 0, 0), None);
}

fn draws(roll: u32, key: usize) -> PayloadDraws {
    PayloadDraws {
        assignee_roll: roll,
        assignee_key: key,
        label_roll: roll,
        label_key: key,
        parent_roll: roll,
        parent_key: key,
        status_roll: roll,
        status_key: key,
    }
}

fn compose(kind: &str, d: &PayloadDraws, r: &Reference) -> CreateIssueBody {
    compose_issue_payload(
        kind,
        &pref("points"),
        &r.members,
        &r.labels,
        &r.initiatives,
        &r.epics,
        &r.statuses,
        d,
        "title".to_string(),
        "a, b, c, d".to_string(),
        8,
    )
}

#[test]
fn composed_leaf_payload() {
    let r = reference();
    let p = compose("task", &draws(5, 0), &r);
    assert_eq!(p.kind, "task");
    assert_eq!(p.title, "title");
    assert_eq!(p.description.as_deref(), Some("a, b, c, d"));
    assert_eq!(p.estimate, Some(8));
    assert_eq!(p.estimate_type.as_deref(), Some("points"));
    assert_eq!(p.assignee_id.as_deref(), Some("u1"));
    assert_eq!(p.labels, vec!["l1".to_string()]);
    assert_eq!(p.epic_id.as_deref(), Some("e1"));
    assert_eq!(p.status.as_deref(), Some("s1"));
    assert!(p.initiative_id.is_none());
    assert!(p.parent_id.is_none());
}

#[test]
fn composed_payload_respects_chances() {
    let r = reference();
    let p = compose("task", &draws(25, 1), &r);
    assert!(p.assignee_id.is_none());
    assert_eq!(p.labels, vec!["l2".to_string()]);
    assert!(p.epic_id.is_none());
    assert_eq!(p.status.as_deref(), Some("s2"));
    let q = compose("task", &draws(31, 1), &r);
    assert!(q.labels.is_empty());
    assert_eq!(q.status.as_deref(), Some("s2"));
}

#[test]
fn composed_epic_and_initiative_payloads() {
    let r = reference();
    let e = compose("epic", &draws(0, 1), &r);
    assert_eq!(e.initiative_id.as_deref(), Some("i2"));
    assert!(e.epic_id.is_none());
    assert!(e.status.is_none());
    let i = compose("initiative", &draws(0, 1), &r);
    assert!(i.initiative_id.is_none());
    assert!(i.epic_id.is_none());
    assert!(i.status.is_none());
}
