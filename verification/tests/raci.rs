use backend::error::EngineError;
use backend::graphql::schema::MutationRoot;
use backend::models::raci_assignment::RaciAssignment;
use backend::models::raci_role::RaciRole;
use backend::store::Store;

struct Fixture {
    store: Store,
    user: u128,
    other_user: u128,
    task: u128,
    other_task: u128,
}

fn fixture() -> Fixture {
    let mut store = Store::new();
    let user = store
        .insert_user("u@example.com".to_string(), "h".to_string())
        .unwrap()
        .id;
    let other_user = store
        .insert_user("v@example.com".to_string(), "h".to_string())
        .unwrap()
        .id;
    let project = store.insert_project("P".to_string(), None, user).unwrap().id;
    let task = store.insert_task("X".to_string(), project).unwrap().id;
    let other_task = store.insert_task("Y".to_string(), project).unwrap().id;
    Fixture { store, user, other_user, task, other_task }
}

fn text(id: u128) -> String {
    format!("{:08x}-{:04x}-{:04x}-{:04x}-{:012x}",
        (id >> 96) as u32,
        (id >> 80) as u16,
        (id >> 64) as u16,
        (id >> 48) as u16,
        id & 0xffff_ffff_ffff)
}

#[test]
fn responsible_then_accountable_leaves_one_row() {
    let mut f = fixture();
    let first = MutationRoot
        .assign_raci_role(&mut f.store, &text(f.user), &text(f.task), RaciRole::Responsible)
        .unwrap();
    assert_eq!(
        first,
        RaciAssignment { user_id: f.user, task_id: f.task, role: RaciRole::Responsible }
    );
    let second = MutationRoot
        .assign_raci_role(&mut f.store, &text(f.user), &text(f.task), RaciRole::Accountable)
        .unwrap();
    assert_eq!(
        second,
        RaciAssignment { user_id: f.user, task_id: f.task, role: RaciRole::Accountable }
    );
    assert_eq!(f.store.assignments_of(f.task), vec![second]);
}

#[test]
fn repeated_assignment_keeps_the_last_role() {
    let roles = [
        RaciRole::Responsible,
        RaciRole::Accountable,
        RaciRole::Consulted,
        RaciRole::Informed,
    ];
    for last in roles {
        let mut f = fixture();
        for role in roles {
            f.store.upsert_assignment(f.user, f.task, role).unwrap();
        }
        f.store.upsert_assignment(f.user, f.task, last).unwrap();
        assert_eq!(
            f.store.assignments_of(f.task),
            vec![RaciAssignment { user_id: f.user, task_id: f.task, role: last }]
        );
    }
}

#[test]
fn a_task_has_one_assignment_for_each_user() {
    let mut f = fixture();
    f.store.upsert_assignment(f.user, f.task, RaciRole::Responsible).unwrap();
    f.store.upsert_assignment(f.other_user, f.task, RaciRole::Responsible).unwrap();
    f.store.upsert_assignment(f.user, f.other_task, RaciRole::Informed).unwrap();
    f.store.upsert_assignment(f.user, f.task, RaciRole::Consulted).unwrap();
    assert_eq!(
        f.store.assignments_of(f.task),
        vec![
            RaciAssignment { user_id: f.user, task_id: f.task, role: RaciRole::Consulted },
            RaciAssignment { user_id: f.other_user, task_id: f.task, role: RaciRole::Responsible },
        ]
    );
    assert_eq!(
        f.store.assignments_of(f.other_task),
        vec![RaciAssignment { user_id: f.user, task_id: f.other_task, role: RaciRole::Informed }]
    );
    let task = f.store.task(f.task).unwrap();
    assert_eq!(task.raci_assignments(&f.store), f.store.assignments_of(f.task));
}

#[test]
fn assignment_to_unknown_user_or_task_is_an_invalid_reference() {
    let mut f = fixture();
    assert_eq!(
        MutationRoot.assign_raci_role(&mut f.store, &text(999), &text(f.task), RaciRole::Informed),
        Err(EngineError::InvalidReference)
    );
    assert_eq!(
        MutationRoot.assign_raci_role(&mut f.store, &text(f.user), &text(999), RaciRole::Informed),
        Err(EngineError::InvalidReference)
    );
    // a task's identifier is no user's
    assert_eq!(
        MutationRoot.assign_raci_role(&mut f.store, &text(f.task), &text(f.task), RaciRole::Informed),
        Err(EngineError::InvalidReference)
    );
    assert!(f.store.assignments_of(f.task).is_empty());
}

#[test]
fn assignment_with_malformed_id_is_refused() {
    let mut f = fixture();
    assert_eq!(
        MutationRoot.assign_raci_role(&mut f.store, "u", &text(f.task), RaciRole::Informed),
        Err(EngineError::MalformedIdentifier)
    );
    assert_eq!(
        MutationRoot.assign_raci_role(&mut f.store, &text(f.user), "t", RaciRole::Informed),
        Err(EngineError::MalformedIdentifier)
    );
    assert!(f.store.assignments_of(f.task).is_empty());
}

#[test]
fn assignment_resolves_its_user() {
    let mut f = fixture();
    let row = f.store.upsert_assignment(f.other_user, f.task, RaciRole::Consulted).unwrap();
    assert_eq!(row.role(), RaciRole::Consulted);
    let user = row.user(&f.store).unwrap();
    assert_eq!(user.id, f.other_user);
    assert_eq!(user.email(), "v@example.com");
    let stray = RaciAssignment { user_id: 999, task_id: f.task, role: RaciRole::Informed };
    assert_eq!(stray.user(&f.store), Err(EngineError::NotFound));
}
