use taskboard::api::{
    decode_user_request, list_projects_response, list_tasks_response, list_users_response,
    stats_response, submit_project, submit_user, ProjectFields, UserFields,
};
use taskboard::calculate_square;
use taskboard::request::{CreateProjectRequest, CreateTaskRequest, CreateUserRequest};
use taskboard::store::Store;
use taskboard::text::{contains_text, decimal_text};

const NOW: u64 = 1_700_000_000;

fn user_request(name: &str, email: &str, role: &str) -> CreateUserRequest {
    CreateUserRequest { name: name.to_string(), email: email.to_string(), role: role.to_string() }
}

fn user_fields(name: Option<&str>, email: Option<&str>, role: Option<&str>) -> UserFields {
    UserFields {
        name: name.map(|s| s.to_string()),
        email: email.map(|s| s.to_string()),
        role: role.map(|s| s.to_string()),
    }
}

#[test]
fn seed_has_five_users_three_projects_three_tasks() {
    let store = Store::seeded(NOW);
    assert_eq!(store.list_users().len(), 5);
    assert_eq!(store.list_projects().len(), 3);
    assert_eq!(store.list_tasks().len(), 3);
}

#[test]
fn seed_ids_are_distinct_and_sequential() {
    let store = Store::seeded(NOW);
    let ids: Vec<String> = store.list_users().into_iter().map(|u| u.id).collect();
    assert_eq!(ids, vec!["user_1", "user_2", "user_3", "user_4", "user_5"]);
    let pids: Vec<String> = store.list_projects().into_iter().map(|p| p.id).collect();
    assert_eq!(pids, vec!["project_1", "project_2", "project_3"]);
    let tids: Vec<String> = store.list_tasks().into_iter().map(|t| t.id).collect();
    assert_eq!(tids, vec!["task_1", "task_2", "task_3"]);
}

#[test]
fn created_user_has_fresh_id_and_is_listed() {
    let mut store = Store::seeded(NOW);
    let before: Vec<String> = store.list_users().into_iter().map(|u| u.id).collect();
    let u = store.create_user(user_request("Zoe", "zoe@example.com", "Tester"), NOW + 5);
    assert!(!u.id.is_empty());
    assert!(!before.contains(&u.id));
    assert_eq!(u.id, "user_6");
    assert_eq!(u.name, "Zoe");
    assert_eq!(u.email, "zoe@example.com");
    assert_eq!(u.role, "Tester");
    assert_eq!(u.created_at, NOW + 5);
    assert!(u.is_active);
    let listed = store.list_users();
    assert_eq!(listed.len(), 6);
    let found: Vec<_> = listed.iter().filter(|x| x.id == u.id).collect();
    assert_eq!(found.len(), 1);
    assert_eq!(found[0].name, "Zoe");
    assert_eq!(found[0].email, "zoe@example.com");
}

#[test]
fn stats_twice_without_change_agree() {
    let store = Store::seeded(NOW);
    assert_eq!(store.stats(), store.stats());
}

#[test]
fn seed_stats_exact() {
    let s = Store::seeded(NOW).stats();
    assert_eq!(s.users.total, 5);
    assert_eq!(s.users.active, 4);
    assert_eq!(s.users.roles.developers, 2);
    assert_eq!(s.users.roles.designers, 1);
    assert_eq!(s.users.roles.managers, 1);
    assert_eq!(s.projects.total, 3);
    assert_eq!(s.projects.in_progress, 1);
    assert_eq!(s.projects.completed, 1);
    assert_eq!(s.projects.planning, 1);
    assert_eq!(s.tasks.total, 3);
    assert_eq!(s.tasks.completed, 1);
    assert_eq!(s.tasks.in_progress, 1);
    assert_eq!(s.tasks.todo, 1);
}

#[test]
fn new_project_is_planning_with_no_progress() {
    let mut store = Store::seeded(NOW);
    let p = store.create_project(
        CreateProjectRequest {
            title: "Mobile App".to_string(),
            description: "Phone client".to_string(),
            technologies: vec!["Kotlin".to_string(), "Swift".to_string()],
            owner_id: "user_9".to_string(),
        },
        NOW,
    );
    assert_eq!(p.status, "Planning");
    assert_eq!(p.progress, 0);
    assert_eq!(p.id, "project_4");
    assert_eq!(p.owner_id, "user_9");
    assert_eq!(p.technologies, vec!["Kotlin".to_string(), "Swift".to_string()]);
    assert_eq!(store.stats().projects.planning, 2);
}

#[test]
fn many_creates_all_land_with_distinct_ids() {
    let mut store = Store::seeded(NOW);
    let start = store.list_users().len();
    let n = 50;
    let mut ids = Vec::new();
    for k in 0..n {
        let u = store.create_user(user_request(&format!("U{}", k), "u@example.com", "Developer"), NOW);
        ids.push(u.id);
    }
    let mut sorted = ids.clone();
    sorted.sort();
    sorted.dedup();
    assert_eq!(sorted.len(), n);
    assert_eq!(store.list_users().len(), start + n);
    let all: Vec<String> = store.list_users().into_iter().map(|u| u.id).collect();
    let mut all_sorted = all.clone();
    all_sorted.sort();
    all_sorted.dedup();
    assert_eq!(all_sorted.len(), all.len());
}

#[test]
fn role_counting_matches_substrings() {
    let mut store = Store::new();
    store.create_user(user_request("A", "a@x", "Senior Full Stack Developer"), NOW);
    store.create_user(user_request("B", "b@x", "UI/UX Designer"), NOW);
    store.create_user(user_request("C", "c@x", "developer"), NOW);
    store.create_user(user_request("D", "d@x", "Designer and Engineering Manager"), NOW);
    let s = store.stats();
    assert_eq!(s.users.roles.developers, 1);
    assert_eq!(s.users.roles.designers, 2);
    assert_eq!(s.users.roles.managers, 1);
    assert_eq!(s.users.active, 4);
}

#[test]
fn missing_email_is_rejected_and_store_unchanged() {
    let mut store = Store::seeded(NOW);
    let before = store.list_users().len();
    let r = submit_user(&mut store, user_fields(Some("N"), None, Some("Designer")), NOW);
    match r {
        Err(e) => assert_eq!(e.field(), "email"),
        Ok(_) => panic!("an incomplete body must be refused"),
    }
    assert_eq!(store.list_users().len(), before);
}

#[test]
fn missing_fields_named_in_order() {
    let e = decode_user_request(user_fields(None, None, None)).unwrap_err();
    assert_eq!(e.field(), "name");
    let e = decode_user_request(user_fields(Some("n"), Some("e"), None)).unwrap_err();
    assert_eq!(e.field(), "role");
    let ok = decode_user_request(user_fields(Some("n"), Some("e"), Some("r"))).unwrap();
    assert_eq!(ok.name, "n");
    assert_eq!(ok.email, "e");
    assert_eq!(ok.role, "r");
}

#[test]
fn submit_user_wraps_created_user() {
    let mut store = Store::seeded(NOW);
    let r = submit_user(&mut store, user_fields(Some("N"), Some("n@x"), Some("Manager")), NOW).unwrap();
    assert!(r.success);
    assert_eq!(r.message, "User created successfully");
    assert_eq!(r.total, None);
    assert_eq!(r.data.unwrap().id, "user_6");
    assert_eq!(store.stats().users.roles.managers, 2);
}

#[test]
fn post_project_example() {
    let mut store = Store::seeded(NOW);
    let fields = ProjectFields {
        title: Some("T".to_string()),
        description: Some("D".to_string()),
        technologies: Some(vec!["Go".to_string()]),
        owner_id: Some("user_001".to_string()),
    };
    let r = submit_project(&mut store, fields, NOW).unwrap();
    assert!(r.success);
    assert_eq!(r.message, "Project created successfully");
    let p = r.data.unwrap();
    assert_eq!(p.status, "Planning");
    assert_eq!(p.progress, 0);
    assert_eq!(p.technologies, vec!["Go".to_string()]);
    assert_eq!(p.id, "project_4");
    assert_eq!(p.title, "T");
    assert_eq!(p.description, "D");
    assert_eq!(p.owner_id, "user_001");
    assert_eq!(r.total, None);
}

#[test]
fn project_body_without_technologies_is_refused() {
    let mut store = Store::seeded(NOW);
    let fields = ProjectFields {
        title: Some("T".to_string()),
        description: Some("D".to_string()),
        technologies: None,
        owner_id: Some("user_1".to_string()),
    };
    let e = submit_project(&mut store, fields, NOW).unwrap_err();
    assert_eq!(e.field(), "technologies");
    assert_eq!(store.list_projects().len(), 3);
}

#[test]
fn list_responses_carry_totals() {
    let store = Store::seeded(NOW);
    let u = list_users_response(&store);
    assert!(u.success);
    assert_eq!(u.total, Some(5));
    assert_eq!(u.data.unwrap().len(), 5);
    assert_eq!(u.message, "Users retrieved successfully");
    let p = list_projects_response(&store);
    assert_eq!(p.total, Some(3));
    assert_eq!(p.message, "Projects retrieved successfully");
    let t = list_tasks_response(&store);
    assert_eq!(t.total, Some(3));
    assert_eq!(t.message, "Tasks retrieved successfully");
    let s = stats_response(&store);
    assert!(s.success);
    assert_eq!(s.total, None);
    assert_eq!(s.data.unwrap(), store.stats());
}

#[test]
fn created_task_is_todo() {
    let mut store = Store::seeded(NOW);
    let t = store.create_task(
        CreateTaskRequest {
            project_id: "project_7".to_string(),
            title: "Write docs".to_string(),
            description: "Guide".to_string(),
            priority: "Low".to_string(),
            assigned_to: Some("user_2".to_string()),
            due_date: Some(NOW + 86_400),
        },
        NOW,
    );
    assert_eq!(t.id, "task_4");
    assert_eq!(t.status, "Todo");
    assert_eq!(t.assigned_to, Some("user_2".to_string()));
    assert_eq!(t.due_date, Some(NOW + 86_400));
    assert_eq!(store.stats().tasks.todo, 2);
}

#[test]
fn empty_store_stats_are_zero() {
    let s = Store::new().stats();
    assert_eq!(s.users.total, 0);
    assert_eq!(s.projects.total, 0);
    assert_eq!(s.tasks.total, 0);
    assert_eq!(s.users.active, 0);
}

#[test]
fn decimal_rendering() {
    assert_eq!(decimal_text(0), "0");
    assert_eq!(decimal_text(7), "7");
    assert_eq!(decimal_text(10), "10");
    assert_eq!(decimal_text(1203), "1203");
    assert_eq!(decimal_text(u64::MAX), "18446744073709551615");
}

#[test]
fn substring_search() {
    assert!(contains_text("Senior Full Stack Developer", "Developer"));
    assert!(contains_text("abc", ""));
    assert!(!contains_text("", "a"));
    assert!(!contains_text("Develope", "Developer"));
    assert!(contains_text("ééxé", "xé"));
    assert!(!contains_text("developer", "Developer"));
}

#[test]
fn squares() {
    assert_eq!(calculate_square(7), 49);
    assert_eq!(calculate_square(-3), 9);
    assert_eq!(calculate_square(0), 0);
    assert_eq!(calculate_square(46340), 2147395600);
}
