use backend::error::{EngineError, StoreFailure};
use backend::instantiation::{Action, Event, Instantiation};
use backend::models::task::Task;
use backend::models::task_status::TaskStatus;
use backend::models::workflow_step::WorkflowStep;

fn step(name: &str, order: i32) -> WorkflowStep {
    WorkflowStep {
        id: 100,
        template_id: 7,
        step_name: name.to_string(),
        step_order: order,
        role: Some("Consulted".to_string()),
        depends_on_step_id: Some(99),
    }
}

fn task(id: u128, title: &str) -> Task {
    Task {
        id,
        title: title.to_string(),
        project_id: 9,
        assigned_to_id: None,
        status: TaskStatus::NotStarted,
        deadline: None,
        jira_ticket_id: None,
    }
}

fn write(title: &str) -> Action {
    Action::WriteTask { title: title.to_string(), project_id: 9 }
}

#[test]
fn run_asks_for_template_then_steps_then_one_task_after_the_other() {
    let (mut run, action) = Instantiation::begin(7, 9);
    assert_eq!(action, Action::FindTemplate { template_id: 7 });
    assert_eq!(run.pending(), Action::FindTemplate { template_id: 7 });
    assert_eq!(run.advance(Event::Template(true)), Action::ReadSteps { template_id: 7 });
    let steps = vec![step("Design", 1), step("Build", 2), step("Review", 3)];
    assert_eq!(run.advance(Event::Steps(steps)), write("Design"));
    assert_eq!(run.advance(Event::Written(task(1, "Design"))), write("Build"));
    assert_eq!(run.written(), vec![task(1, "Design")]);
    assert_eq!(run.advance(Event::Written(task(2, "Build"))), write("Review"));
    assert_eq!(
        run.advance(Event::Written(task(3, "Review"))),
        Action::Finish(Ok(vec![task(1, "Design"), task(2, "Build"), task(3, "Review")]))
    );
    assert_eq!(run.written().len(), 3);
}

#[test]
fn run_takes_the_steps_in_the_order_given() {
    let (mut run, _) = Instantiation::begin(7, 9);
    run.advance(Event::Template(true));
    assert_eq!(run.advance(Event::Steps(vec![step("late", 9), step("early", 1)])), write("late"));
    assert_eq!(run.advance(Event::Written(task(1, "late"))), write("early"));
}

#[test]
fn run_without_steps_ends_at_once_with_no_tasks() {
    let (mut run, _) = Instantiation::begin(7, 9);
    run.advance(Event::Template(true));
    assert_eq!(run.advance(Event::Steps(Vec::new())), Action::Finish(Ok(Vec::new())));
    assert!(run.written().is_empty());
}

#[test]
fn run_for_a_missing_template_ends_not_found() {
    let (mut run, _) = Instantiation::begin(7, 9);
    assert_eq!(
        run.advance(Event::Template(false)),
        Action::Finish(Err(EngineError::NotFound))
    );
    assert_eq!(run.pending(), Action::Finish(Err(EngineError::NotFound)));
    assert!(run.written().is_empty());
}

#[test]
fn refusal_of_the_first_write_ends_the_run_with_nothing_written() {
    let (mut run, _) = Instantiation::begin(7, 9);
    run.advance(Event::Template(true));
    run.advance(Event::Steps(vec![step("a", 1), step("b", 2)]));
    assert_eq!(
        run.advance(Event::Refused(StoreFailure::ForeignKeyViolation)),
        Action::Finish(Err(EngineError::InvalidReference))
    );
    assert!(run.written().is_empty());
}

#[test]
fn refusal_partway_leaves_what_was_written() {
    let (mut run, _) = Instantiation::begin(7, 9);
    run.advance(Event::Template(true));
    run.advance(Event::Steps(vec![step("a", 1), step("b", 2), step("c", 3)]));
    run.advance(Event::Written(task(1, "a")));
    run.advance(Event::Written(task(2, "b")));
    assert_eq!(
        run.advance(Event::Refused(StoreFailure::UniqueViolation)),
        Action::Finish(Err(EngineError::Conflict))
    );
    assert_eq!(run.written(), vec![task(1, "a"), task(2, "b")]);
}

#[test]
fn refusal_while_finding_or_reading_ends_the_run() {
    let (mut finding, _) = Instantiation::begin(7, 9);
    assert_eq!(
        finding.advance(Event::Refused(StoreFailure::RowNotFound)),
        Action::Finish(Err(EngineError::NotFound))
    );
    let (mut reading, _) = Instantiation::begin(7, 9);
    reading.advance(Event::Template(true));
    assert_eq!(
        reading.advance(Event::Refused(StoreFailure::ForeignKeyViolation)),
        Action::Finish(Err(EngineError::InvalidReference))
    );
}

#[test]
fn run_awaits_only_the_answer_to_what_it_asked() {
    let (mut run, _) = Instantiation::begin(7, 9);
    let refused = Event::Refused(StoreFailure::RowNotFound);
    assert!(run.awaits(&Event::Template(true)));
    assert!(run.awaits(&refused));
    assert!(!run.awaits(&Event::Steps(Vec::new())));
    assert!(!run.awaits(&Event::Written(task(1, "x"))));
    run.advance(Event::Template(true));
    assert!(run.awaits(&Event::Steps(Vec::new())));
    assert!(run.awaits(&refused));
    assert!(!run.awaits(&Event::Template(true)));
    assert!(!run.awaits(&Event::Written(task(1, "x"))));
    run.advance(Event::Steps(vec![step("a", 1)]));
    assert!(run.awaits(&Event::Written(task(1, "a"))));
    assert!(run.awaits(&refused));
    assert!(!run.awaits(&Event::Template(true)));
    assert!(!run.awaits(&Event::Steps(Vec::new())));
    run.advance(Event::Written(task(1, "a")));
    assert!(!run.awaits(&Event::Written(task(2, "b"))));
    assert!(!run.awaits(&refused));
    assert!(!run.awaits(&Event::Template(true)));
    assert!(!run.awaits(&Event::Steps(Vec::new())));
}
