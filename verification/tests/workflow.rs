use backend::error::EngineError;
use backend::graphql::schema::{MutationRoot, QueryRoot};
use backend::models::task::Task;
use backend::models::task_status::TaskStatus;
use backend::models::workflow_step::WorkflowStep;
use backend::store::Store;
use backend::workflow::{apply_template, planned_titles};

struct Fixture {
    store: Store,
    owner: u128,
    project: String,
    template: String,
}

fn fixture(steps: &[(&str, i32)]) -> Fixture {
    let mut store = Store::new();
    let owner = store
        .insert_user("o@example.com".to_string(), "h".to_string())
        .unwrap()
        .id;
    let project = MutationRoot
        .create_project(&mut store, owner, "P".to_string(), None)
        .unwrap()
        .id();
    let template = MutationRoot
        .create_workflow_template(&mut store, owner, "T".to_string(), None)
        .unwrap()
        .id();
    for (name, order) in steps {
        MutationRoot
            .add_workflow_step(&mut store, &template, name.to_string(), *order, None)
            .unwrap();
    }
    Fixture { store, owner, project, template }
}

fn titles(tasks: &[Task]) -> Vec<&str> {
    tasks.iter().map(|t| t.title()).collect()
}

#[test]
fn design_build_review_become_tasks_in_order() {
    let mut f = fixture(&[("Design", 1), ("Build", 2), ("Review", 3)]);
    let tasks = MutationRoot
        .apply_workflow_template_to_project(&mut f.store, &f.template, &f.project)
        .unwrap();
    assert_eq!(titles(&tasks), vec!["Design", "Build", "Review"]);
    for task in &tasks {
        assert_eq!(task.status(), TaskStatus::NotStarted);
        assert_eq!(task.project_id(), f.project);
        assert_eq!(task.assigned_to_id, None);
        assert_eq!(task.deadline, None);
        assert_eq!(task.jira_ticket_id, None);
    }
    assert!(tasks[0].id < tasks[1].id && tasks[1].id < tasks[2].id);
    let project = QueryRoot
        .get_project_by_id(&f.store, &f.project)
        .unwrap()
        .unwrap();
    assert_eq!(project.tasks(&f.store), tasks);
}

#[test]
fn steps_are_read_by_sort_key_not_by_writing_order() {
    let mut f = fixture(&[("Review", 30), ("Design", -5), ("Build", 7)]);
    let tasks = MutationRoot
        .apply_workflow_template_to_project(&mut f.store, &f.template, &f.project)
        .unwrap();
    assert_eq!(titles(&tasks), vec!["Design", "Build", "Review"]);
    assert_eq!(tasks[0].id + 1, tasks[1].id);
    assert_eq!(tasks[1].id + 1, tasks[2].id);
}

#[test]
fn steps_with_one_sort_key_keep_their_writing_order() {
    let mut f = fixture(&[("b", 2), ("a1", 1), ("a2", 1), ("c", 3), ("a3", 1), ("b2", 2)]);
    let tasks = MutationRoot
        .apply_workflow_template_to_project(&mut f.store, &f.template, &f.project)
        .unwrap();
    assert_eq!(titles(&tasks), vec!["a1", "a2", "a3", "b", "b2", "c"]);
}

#[test]
fn template_without_steps_gives_no_tasks_and_no_error() {
    let mut f = fixture(&[]);
    let tasks = MutationRoot
        .apply_workflow_template_to_project(&mut f.store, &f.template, &f.project)
        .unwrap();
    assert!(tasks.is_empty());
    // the project is not looked at where nothing is written
    let nowhere = "00000000-0000-0000-0000-00000000beef";
    assert_eq!(
        MutationRoot.apply_workflow_template_to_project(&mut f.store, &f.template, nowhere),
        Ok(vec![])
    );
}

#[test]
fn missing_template_is_not_found_and_nothing_is_written() {
    let mut f = fixture(&[("Design", 1)]);
    let nowhere = "00000000-0000-0000-0000-00000000beef";
    assert_eq!(
        MutationRoot.apply_workflow_template_to_project(&mut f.store, nowhere, &f.project),
        Err(EngineError::NotFound)
    );
    // a project's identifier is no template's
    let project = f.project.clone();
    assert_eq!(
        MutationRoot.apply_workflow_template_to_project(&mut f.store, &project, &f.project),
        Err(EngineError::NotFound)
    );
    assert!(f.store.tasks_of(2).is_empty());
}

#[test]
fn missing_project_is_an_invalid_reference_and_nothing_is_written() {
    let mut f = fixture(&[("Design", 1), ("Build", 2)]);
    let nowhere = "00000000-0000-0000-0000-00000000beef";
    assert_eq!(
        MutationRoot.apply_workflow_template_to_project(&mut f.store, &f.template, nowhere),
        Err(EngineError::InvalidReference)
    );
    assert!(f.store.tasks_of(0xbeef).is_empty());
    // the next identifier was not used up
    let task = MutationRoot
        .create_task(&mut f.store, "later".to_string(), &f.project)
        .unwrap();
    assert_eq!(task.id, 6);
}

#[test]
fn malformed_ids_are_refused_before_anything_is_read() {
    let mut f = fixture(&[("Design", 1)]);
    assert_eq!(
        MutationRoot.apply_workflow_template_to_project(&mut f.store, "nope", &f.project),
        Err(EngineError::MalformedIdentifier)
    );
    assert_eq!(
        MutationRoot.apply_workflow_template_to_project(&mut f.store, &f.template, "nope"),
        Err(EngineError::MalformedIdentifier)
    );
    assert!(f.store.tasks_of(2).is_empty());
}

#[test]
fn applying_twice_writes_the_tasks_twice() {
    let mut f = fixture(&[("Design", 1), ("Build", 2)]);
    let first = MutationRoot
        .apply_workflow_template_to_project(&mut f.store, &f.template, &f.project)
        .unwrap();
    let second = MutationRoot
        .apply_workflow_template_to_project(&mut f.store, &f.template, &f.project)
        .unwrap();
    assert_eq!(titles(&first), titles(&second));
    assert_ne!(first[0].id, second[0].id);
    let all = f.store.tasks_of(first[0].project_id);
    assert_eq!(titles(&all), vec!["Design", "Build", "Design", "Build"]);
}

#[test]
fn only_the_name_of_a_step_goes_into_its_task() {
    let mut f = fixture(&[]);
    let step = MutationRoot
        .add_workflow_step(
            &mut f.store,
            &f.template,
            "Sign off".to_string(),
            4,
            Some("Accountable".to_string()),
        )
        .unwrap();
    assert_eq!(step.step_name(), "Sign off");
    assert_eq!(step.step_order(), 4);
    assert_eq!(step.role(), Some("Accountable"));
    assert_eq!(step.depends_on_step_id(), None);
    let tasks = MutationRoot
        .apply_workflow_template_to_project(&mut f.store, &f.template, &f.project)
        .unwrap();
    assert_eq!(tasks.len(), 1);
    assert_eq!(tasks[0].title(), "Sign off");
    assert_eq!(tasks[0].assigned_to_id(), None);
}

#[test]
fn steps_of_other_templates_are_left_out() {
    let mut f = fixture(&[("mine", 1)]);
    let other = MutationRoot
        .create_workflow_template(&mut f.store, f.owner, "Other".to_string(), None)
        .unwrap();
    MutationRoot
        .add_workflow_step(&mut f.store, &other.id(), "theirs".to_string(), 0, None)
        .unwrap();
    MutationRoot
        .add_workflow_step(&mut f.store, &f.template, "mine too".to_string(), 0, None)
        .unwrap();
    let tasks = MutationRoot
        .apply_workflow_template_to_project(&mut f.store, &f.template, &f.project)
        .unwrap();
    assert_eq!(titles(&tasks), vec!["mine too", "mine"]);
    let steps = other.steps(&f.store);
    assert_eq!(steps.len(), 1);
    assert_eq!(steps[0].step_name(), "theirs");
}

#[test]
fn template_resolves_its_steps_in_step_order() {
    let f = fixture(&[("c", 3), ("a", 1), ("b", 2)]);
    let template = QueryRoot
        .get_workflow_template_by_id(&f.store, &f.template)
        .unwrap()
        .unwrap();
    let steps = template.steps(&f.store);
    let names: Vec<&str> = steps.iter().map(|s| s.step_name()).collect();
    assert_eq!(names, vec!["a", "b", "c"]);
    let orders: Vec<i32> = steps.iter().map(|s| s.step_order()).collect();
    assert_eq!(orders, vec![1, 2, 3]);
}

#[test]
fn planned_titles_are_the_step_names_as_given() {
    let step = |name: &str, order: i32| WorkflowStep {
        id: 1,
        template_id: 2,
        step_name: name.to_string(),
        step_order: order,
        role: None,
        depends_on_step_id: None,
    };
    let steps = vec![step("x", 9), step("y", 1)];
    assert_eq!(planned_titles(&steps), vec!["x".to_string(), "y".to_string()]);
    assert!(planned_titles(&Vec::new()).is_empty());
}

#[test]
fn apply_template_by_identifier() {
    let mut f = fixture(&[("only", 0)]);
    let tasks = apply_template(&mut f.store, 3, 2).unwrap();
    assert_eq!(tasks.len(), 1);
    assert_eq!(tasks[0].id, 5);
    assert_eq!(tasks[0].project_id, 2);
    assert_eq!(apply_template(&mut f.store, 77, 2), Err(EngineError::NotFound));
    assert_eq!(apply_template(&mut f.store, 3, 77), Err(EngineError::InvalidReference));
}

#[test]
fn step_for_unknown_template_is_an_invalid_reference() {
    let mut f = fixture(&[]);
    assert_eq!(
        MutationRoot.add_workflow_step(
            &mut f.store,
            "00000000-0000-0000-0000-00000000beef",
            "s".to_string(),
            1,
            None
        ),
        Err(EngineError::InvalidReference)
    );
    assert_eq!(
        MutationRoot.add_workflow_step(&mut f.store, "x", "s".to_string(), 1, None),
        Err(EngineError::MalformedIdentifier)
    );
}
