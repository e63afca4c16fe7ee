//! Workflow instantiation: a template's steps become tasks of a project.

use crate::error::{EngineError, StoreFailure};
use crate::instantiation::{Action, Event, Instantiation, InstantiationView, Phase};
use crate::models::task::{Task, TaskView};
use crate::models::workflow_step::WorkflowStep;
use crate::models::task_status::TaskStatus;
use crate::store::order::{ascending, by_step_order, lemma_in_order, lemma_orders};
use crate::store::state::{in_template, step_names, tasks_created, views, StoreView};
use crate::store::Store;
use vstd::prelude::*;

verus! {

/// The characters of each of some texts.
pub open spec fn texts(rows: Seq<String>) -> Seq<Seq<char>> {
    rows.map_values(|row: String| row@)
}

/// Why a template cannot be applied to a project, if it cannot: the template
/// is missing, or it has a step and the project is missing. A template
/// without steps asks nothing of the project.
pub open spec fn refusal(store: StoreView, template_id: u128, project_id: u128) -> Option<
    EngineError,
> {
    if !store.has_template(template_id) {
        Some(EngineError::NotFound)
    } else if store.titles_of(template_id).len() > 0 && !store.has_project(project_id) {
        Some(EngineError::InvalidReference)
    } else {
        None
    }
}

/// A template with steps gives as many tasks as it has steps; the tasks bear
/// the names of the steps in step order, are numbered in that order from the
/// next identifier on, belong to the project and are not started.
pub proof fn lemma_one_task_for_each_step(store: StoreView, template_id: u128, project_id: u128)
    ensures
        ascending(store.steps_of(template_id), by_step_order()),
        store.steps_of(template_id).to_multiset() == store.steps.filter(
            in_template(template_id),
        ).to_multiset(),
        tasks_created(store.next_id, store.titles_of(template_id), project_id).len()
            == store.steps_of(template_id).len(),
        forall|i: int|
            0 <= i < store.steps_of(template_id).len() ==> {
                let task = #[trigger] tasks_created(
                    store.next_id,
                    store.titles_of(template_id),
                    project_id,
                )[i];
                &&& task.title == store.steps_of(template_id)[i].step_name
                &&& task.id == (store.next_id + i) as u128
                &&& task.project_id == project_id
                &&& task.status == TaskStatus::NotStarted
            },
{
    lemma_orders();
    lemma_in_order(store.steps.filter(in_template(template_id)), by_step_order());
}

/// Applying a template a second time writes its tasks a second time: the
/// project then holds both sets, the second numbered behind the first.
pub proof fn lemma_applied_twice(store: StoreView, template_id: u128, project_id: u128)
    requires
        store.wf(),
        store.has_template(template_id),
        store.has_project(project_id),
        store.next_id + 2 * store.titles_of(template_id).len() <= u128::MAX,
    ensures
        ({
            let titles = store.titles_of(template_id);
            let once = store.with_tasks(titles, project_id);
            let twice = once.with_tasks(titles, project_id);
            &&& once.titles_of(template_id) == titles
            &&& refusal(once, template_id, project_id) is None
            &&& twice.wf()
            &&& twice.tasks == store.tasks + tasks_created(store.next_id, titles, project_id)
                + tasks_created((store.next_id + titles.len()) as u128, titles, project_id)
        }),
{
    let titles = store.titles_of(template_id);
    let once = store.with_tasks(titles, project_id);
    store.lemma_with_tasks(titles, project_id);
    once.lemma_with_tasks(titles, project_id);
}

/// A template that exists and has no step is applied without error, to
/// whatever project: no task is made and the store stays as it is.
pub proof fn lemma_no_steps_no_tasks(store: StoreView, template_id: u128, project_id: u128)
    requires
        store.has_template(template_id),
        store.steps_of(template_id).len() == 0,
    ensures
        refusal(store, template_id, project_id) is None,
        tasks_created(store.next_id, store.titles_of(template_id), project_id)
            == Seq::<TaskView>::empty(),
        store.with_tasks(store.titles_of(template_id), project_id) == store,
{
    assert(tasks_created(store.next_id, store.titles_of(template_id), project_id)
        =~= Seq::<TaskView>::empty());
}

/// A template that does not exist is not found, whatever the project.
pub proof fn lemma_missing_template(store: StoreView, template_id: u128, project_id: u128)
    requires
        !store.has_template(template_id),
    ensures
        refusal(store, template_id, project_id) == Some(EngineError::NotFound),
{
}

/// The titles of the tasks that stand for `steps`: the name of each step, in
/// the order given. No other field of a step goes into its task.
pub fn planned_titles(steps: &Vec<WorkflowStep>) -> (titles: Vec<String>)
    ensures
        texts(titles@) == step_names(views(steps@)),
{
    let mut titles: Vec<String> = Vec::new();
    for i in 0..steps.len()
        invariant
            texts(titles@) == step_names(views(steps@)).take(i as int),
    {
        let ghost before = titles@;
        titles.push(steps[i].step_name.clone());
        assert(step_names(views(steps@))[i as int] == steps@[i as int].step_name@);
        assert(texts(titles@) =~= texts(before).push(steps@[i as int].step_name@));
        assert(texts(titles@) =~= step_names(views(steps@)).take(i + 1));
    }
    assert(step_names(views(steps@)).take(steps.len() as int) =~= step_names(views(steps@)));
    titles
}

/// How far a run has to go.
spec fn rank(phase: Phase) -> nat {
    match phase {
        Phase::Finding => 3,
        Phase::Reading => 2,
        Phase::Writing => 1,
        Phase::Done => 0,
    }
}

/// Whether a run that works on a store has come as far as it says: the
/// store holds, behind what it held at first, one task for each title that
/// the run has had written, and the run holds those tasks.
spec fn on_course(first: StoreView, now: StoreView, run: InstantiationView) -> bool {
    let written = run.created.len() as int;
    let titles = first.titles_of(run.template_id);
    match run.phase {
        Phase::Finding => now == first,
        Phase::Reading => now == first && first.has_template(run.template_id),
        _ => match run.failure {
            Some(error) => now == first && refusal(first, run.template_id, run.project_id)
                == Some(error),
            None => {
                &&& first.has_template(run.template_id)
                &&& run.titles == titles
                &&& now == first.with_tasks(titles.take(written), run.project_id)
                &&& now.next_id == first.next_id + written
                &&& run.created == tasks_created(
                    first.next_id,
                    titles.take(written),
                    run.project_id,
                )
                &&& written > 0 ==> first.has_project(run.project_id)
            },
        },
    }
}

/// Applies a template to a project: reads the template's steps in step
/// order and writes one task for each, one after the other, under the step's
/// name. Returns the tasks in the order in which they were written.
///
/// Applying a template twice writes its tasks twice.
pub fn apply_template(
    store: &mut Store,
    template_id: u128,
    project_id: u128,
) -> (created: Result<Vec<Task>, EngineError>)
    requires
        old(store).wf(),
    ensures
        final(store).wf(),
        match created {
            Ok(tasks) => {
                &&& refusal(old(store)@, template_id, project_id) is None
                &&& views(tasks@) == tasks_created(
                    old(store)@.next_id,
                    old(store)@.titles_of(template_id),
                    project_id,
                )
                &&& final(store)@ == old(store)@.with_tasks(
                    old(store)@.titles_of(template_id),
                    project_id,
                )
            },
            Err(error) => {
                &&& refusal(old(store)@, template_id, project_id) == Some(error)
                &&& final(store)@ == old(store)@
            },
        },
{
    let (mut run, mut action) = Instantiation::begin(template_id, project_id);
    loop
        invariant
            old(store).wf(),
            store.wf(),
            run.wf(),
            action@ == run@.pending(),
            run@.template_id == template_id,
            run@.project_id == project_id,
            on_course(old(store)@, store@, run@),
        decreases rank(run@.phase), run@.titles.len() - run@.created.len(),
    {
        let ghost before = store@;
        let ghost names = old(store)@.titles_of(template_id);
        let ghost written = run@.created.len() as int;
        let event = match action {
            Action::FindTemplate { template_id } => Event::Template(
                store.template(template_id).is_some(),
            ),
            Action::ReadSteps { template_id } => Event::Steps(store.steps_of(template_id)),
            Action::WriteTask { title, project_id } => {
                proof {
                    assert(names.take(written + 1).drop_last() =~= names.take(written));
                    assert(names.take(written + 1).last() == names[written]);
                    if written > 0 {
                        old(store)@.lemma_with_tasks(names.take(written), project_id);
                    } else {
                        assert(names.take(0) =~= Seq::empty());
                        assert(before == old(store)@);
                    }
                }
                match store.insert_task(title, project_id) {
                    Ok(task) => {
                        proof {
                            before.lemma_with_task(names[written], project_id);
                            assert(tasks_created(
                                old(store)@.next_id,
                                names.take(written),
                                project_id,
                            ).push(task@) =~= tasks_created(
                                old(store)@.next_id,
                                names.take(written + 1),
                                project_id,
                            ));
                        }
                        Event::Written(task)
                    },
                    // the one refusal of a write: the project is missing
                    Err(_) => Event::Refused(StoreFailure::ForeignKeyViolation),
                }
            },
            Action::Finish(result) => {
                proof {
                    if run@.failure is None {
                        assert(names.take(written) =~= names);
                    }
                }
                return result;
            },
        };
        proof {
            run@.lemma_after_wf(event@);
        }
        action = run.advance(event);
        proof {
            if run@.created.len() == 0 {
                assert(run@.created =~= Seq::<TaskView>::empty());
                assert(names.take(0) =~= Seq::empty());
                assert(tasks_created(old(store)@.next_id, names.take(0), project_id)
                    =~= Seq::<TaskView>::empty());
            }
        }
    }
}

} // verus!
