use backend::error::EngineError;
use backend::graphql::schema::MutationRoot;
use backend::models::task_status::TaskStatus;
use backend::store::Store;

const ALL: [TaskStatus; 6] = [
    TaskStatus::NotStarted,
    TaskStatus::InProgress,
    TaskStatus::Blocked,
    TaskStatus::UnderReview,
    TaskStatus::Deprecated,
    TaskStatus::Completed,
];

fn store_with_task() -> (Store, String) {
    let mut store = Store::new();
    let owner = store
        .insert_user("owner@example.com".to_string(), "hash".to_string())
        .unwrap();
    let project = store
        .insert_project("P".to_string(), None, owner.id)
        .unwrap();
    let task = store.insert_task("T".to_string(), project.id).unwrap();
    (store, task.id())
}

#[test]
fn every_status_follows_every_status() {
    for from in ALL {
        for to in ALL {
            let (mut store, task_id) = store_with_task();
            let first = MutationRoot
                .update_task_status(&mut store, &task_id, from)
                .unwrap();
            assert_eq!(first.status, from);
            let second = MutationRoot
                .update_task_status(&mut store, &task_id, to)
                .unwrap();
            assert_eq!(second.status, to);
            assert_eq!(second.id, first.id);
            assert_eq!(second.title, first.title);
            assert_eq!(store.task(second.id).unwrap().status, to);
        }
    }
}

#[test]
fn same_status_again_changes_nothing() {
    let (mut store, task_id) = store_with_task();
    let once = MutationRoot
        .update_task_status(&mut store, &task_id, TaskStatus::Completed)
        .unwrap();
    let twice = MutationRoot
        .update_task_status(&mut store, &task_id, TaskStatus::Completed)
        .unwrap();
    assert_eq!(once, twice);
}

#[test]
fn completed_task_can_be_reopened_as_blocked() {
    let (mut store, task_id) = store_with_task();
    MutationRoot
        .update_task_status(&mut store, &task_id, TaskStatus::Completed)
        .unwrap();
    let reopened = MutationRoot
        .update_task_status(&mut store, &task_id, TaskStatus::Blocked)
        .unwrap();
    assert_eq!(reopened.status(), TaskStatus::Blocked);
}

#[test]
fn status_of_unknown_task_is_not_found() {
    let (mut store, _) = store_with_task();
    let missing = "00000000-0000-0000-0000-0000000000ff";
    assert_eq!(
        MutationRoot.update_task_status(&mut store, missing, TaskStatus::Blocked),
        Err(EngineError::NotFound)
    );
    assert_eq!(
        store.set_task_status(0xff, TaskStatus::Blocked),
        Err(EngineError::NotFound)
    );
}

#[test]
fn status_with_malformed_id_is_refused() {
    let (mut store, _) = store_with_task();
    assert_eq!(
        MutationRoot.update_task_status(&mut store, "not-a-uuid", TaskStatus::Blocked),
        Err(EngineError::MalformedIdentifier)
    );
}

#[test]
fn status_update_leaves_other_tasks_alone() {
    let (mut store, task_id) = store_with_task();
    let project = store.task(3).unwrap().project_id;
    let other = store.insert_task("Other".to_string(), project).unwrap();
    MutationRoot
        .update_task_status(&mut store, &task_id, TaskStatus::InProgress)
        .unwrap();
    assert_eq!(store.task(other.id), Some(other));
}

#[test]
fn linking_a_ticket_keeps_the_rest_of_the_task() {
    let (mut store, task_id) = store_with_task();
    MutationRoot
        .update_task_status(&mut store, &task_id, TaskStatus::UnderReview)
        .unwrap();
    let linked = MutationRoot
        .link_jira_ticket(&mut store, &task_id, "PROJ-42".to_string())
        .unwrap();
    assert_eq!(linked.jira_ticket_id(), Some("PROJ-42"));
    assert_eq!(linked.status, TaskStatus::UnderReview);
    assert_eq!(linked.title, "T");
    let relinked = MutationRoot
        .link_jira_ticket(&mut store, &task_id, "PROJ-43".to_string())
        .unwrap();
    assert_eq!(relinked.jira_ticket_id(), Some("PROJ-43"));
}

#[test]
fn linking_a_ticket_to_unknown_task_is_not_found() {
    let (mut store, _) = store_with_task();
    assert_eq!(
        MutationRoot.link_jira_ticket(
            &mut store,
            "00000000-0000-0000-0000-0000000000ff",
            "PROJ-1".to_string()
        ),
        Err(EngineError::NotFound)
    );
    assert_eq!(
        MutationRoot.link_jira_ticket(&mut store, "", "PROJ-1".to_string()),
        Err(EngineError::MalformedIdentifier)
    );
}
