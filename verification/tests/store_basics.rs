use backend::graphql::schema::{MutationRoot, QueryRoot};
use backend::models::task_status::TaskStatus;
use backend::store::Store;

fn store_with_owner() -> (Store, u128) {
    let mut store = Store::new();
    let owner = store
        .insert_user("owner@example.com".to_string(), "hash".to_string())
        .unwrap();
    (store, owner.id)
}

#[test]
fn new_store_is_empty() {
    let store = Store::new();
    assert!(QueryRoot.get_users(&store).is_empty());
    assert!(QueryRoot.get_workflow_templates(&store).is_empty());
    assert!(QueryRoot.get_projects(&store, 1).is_empty());
    assert_eq!(store.user(1), None);
    assert_eq!(store.task(1), None);
}

#[test]
fn identifiers_are_issued_in_sequence_across_tables() {
    let (mut store, owner) = store_with_owner();
    assert_eq!(owner, 1);
    let project = MutationRoot
        .create_project(&mut store, owner, "P".to_string(), None)
        .unwrap();
    assert_eq!(project.id, 2);
    let task = MutationRoot
        .create_task(&mut store, "T".to_string(), &project.id())
        .unwrap();
    assert_eq!(task.id, 3);
    let template = MutationRoot
        .create_workflow_template(&mut store, owner, "W".to_string(), None)
        .unwrap();
    assert_eq!(template.id, 4);
    let step = MutationRoot
        .add_workflow_step(&mut store, &template.id(), "S".to_string(), 1, None)
        .unwrap();
    assert_eq!(step.id, 5);
}

#[test]
fn health_reports_running() {
    assert_eq!(QueryRoot.health(), "Server is up and running!");
}

#[test]
fn created_task_is_not_started_and_unassigned() {
    let (mut store, owner) = store_with_owner();
    let project = MutationRoot
        .create_project(&mut store, owner, "P".to_string(), Some("about".to_string()))
        .unwrap();
    let task = MutationRoot
        .create_task(&mut store, "Write docs".to_string(), &project.id())
        .unwrap();
    assert_eq!(task.title(), "Write docs");
    assert_eq!(task.project_id, project.id);
    assert_eq!(task.project_id(), project.id());
    assert_eq!(task.status(), TaskStatus::NotStarted);
    assert_eq!(task.assigned_to_id(), None);
    assert_eq!(task.deadline(), None);
    assert_eq!(task.jira_ticket_id(), None);
    assert_eq!(store.task(task.id), Some(task));
}
