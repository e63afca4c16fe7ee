//! The course of one workflow instantiation, for a caller that does the
//! store's work itself: the run asks for one thing at a time and is told how
//! it went. Tasks are written one after the other, each as a write of its
//! own; a failure ends the run and undoes nothing.

use crate::error::{EngineError, StoreFailure};
use crate::models::task::{Task, TaskView};
use crate::models::workflow_step::{WorkflowStep, WorkflowStepView};
use crate::store::state::{step_names, views};
use crate::workflow::{planned_titles, texts};
use vstd::prelude::*;

verus! {

/// How far a run has come.
#[derive(Clone, Copy, Debug, PartialEq, Eq, Structural)]
pub enum Phase {
    /// The template is being looked up.
    Finding,
    /// The steps of the template are being read.
    Reading,
    /// Tasks are being written.
    Writing,
    /// The run is over.
    Done,
}

/// What a run asks of its caller.
#[derive(Debug, PartialEq, Eq)]
pub enum Action {
    /// Say whether the template exists.
    FindTemplate { template_id: u128 },
    /// Read the steps of the template, in step order.
    ReadSteps { template_id: u128 },
    /// Write a task with this title in this project.
    WriteTask { title: String, project_id: u128 },
    /// Nothing more: this is how the run ended.
    Finish(Result<Vec<Task>, EngineError>),
}

/// What the caller tells a run.
#[derive(Debug, PartialEq, Eq)]
pub enum Event {
    /// Whether the template exists.
    Template(bool),
    /// The steps that were read, in step order.
    Steps(Vec<WorkflowStep>),
    /// The task that was written.
    Written(Task),
    /// The store refused what was asked.
    Refused(StoreFailure),
}

/// An action, as a mathematical value.
pub enum ActionView {
    FindTemplate { template_id: u128 },
    ReadSteps { template_id: u128 },
    WriteTask { title: Seq<char>, project_id: u128 },
    Finish(Result<Seq<TaskView>, EngineError>),
}

/// An event, as a mathematical value.
pub enum EventView {
    Template(bool),
    Steps(Seq<WorkflowStepView>),
    Written(TaskView),
    Refused(StoreFailure),
}

impl View for Action {
    type V = ActionView;

    open spec fn view(&self) -> ActionView {
        match *self {
            Action::FindTemplate { template_id } => ActionView::FindTemplate { template_id },
            Action::ReadSteps { template_id } => ActionView::ReadSteps { template_id },
            Action::WriteTask { title, project_id } => ActionView::WriteTask {
                title: title@,
                project_id,
            },
            Action::Finish(Ok(tasks)) => ActionView::Finish(Ok(views(tasks@))),
            Action::Finish(Err(error)) => ActionView::Finish(Err(error)),
        }
    }
}

impl View for Event {
    type V = EventView;

    open spec fn view(&self) -> EventView {
        match *self {
            Event::Template(found) => EventView::Template(found),
            Event::Steps(steps) => EventView::Steps(views(steps@)),
            Event::Written(task) => EventView::Written(task@),
            Event::Refused(failure) => EventView::Refused(failure),
        }
    }
}

/// A run, as a mathematical value.
pub struct InstantiationView {
    pub template_id: u128,
    pub project_id: u128,
    pub phase: Phase,
    /// The titles of the tasks to write, once the steps were read.
    pub titles: Seq<Seq<char>>,
    /// The tasks that were written, in the order of their writing.
    pub created: Seq<TaskView>,
    /// Why the run failed, if it did.
    pub failure: Option<EngineError>,
}

impl InstantiationView {
    /// A run that has not asked for anything yet.
    pub open spec fn begun(template_id: u128, project_id: u128) -> InstantiationView {
        InstantiationView {
            template_id,
            project_id,
            phase: Phase::Finding,
            titles: Seq::empty(),
            created: Seq::empty(),
            failure: None,
        }
    }

    /// While tasks are written one is still to write, and a run that ended
    /// well has written them all.
    pub open spec fn wf(self) -> bool {
        &&& self.created.len() <= self.titles.len()
        &&& self.phase == Phase::Writing ==> self.created.len() < self.titles.len()
            && self.failure is None
        &&& self.phase == Phase::Done && self.failure is None ==> self.created.len()
            == self.titles.len()
        &&& self.phase == Phase::Finding || self.phase == Phase::Reading ==> self.failure is None
            && self.titles.len() == 0
    }

    /// What the run asks for.
    pub open spec fn pending(self) -> ActionView {
        match self.phase {
            Phase::Finding => ActionView::FindTemplate { template_id: self.template_id },
            Phase::Reading => ActionView::ReadSteps { template_id: self.template_id },
            Phase::Writing => ActionView::WriteTask {
                title: self.titles[self.created.len() as int],
                project_id: self.project_id,
            },
            Phase::Done => match self.failure {
                Some(error) => ActionView::Finish(Err(error)),
                None => ActionView::Finish(Ok(self.created)),
            },
        }
    }

    /// Whether `event` answers what the run asks for.
    pub open spec fn awaits(self, event: EventView) -> bool {
        match (self.phase, event) {
            (Phase::Finding, EventView::Template(_)) => true,
            (Phase::Reading, EventView::Steps(_)) => true,
            (Phase::Writing, EventView::Written(_)) => true,
            (Phase::Finding, EventView::Refused(_)) => true,
            (Phase::Reading, EventView::Refused(_)) => true,
            (Phase::Writing, EventView::Refused(_)) => true,
            _ => false,
        }
    }

    /// The run as it ends with `error`: what was written stays written.
    pub open spec fn failed(self, error: EngineError) -> InstantiationView {
        InstantiationView { phase: Phase::Done, failure: Some(error), ..self }
    }

    /// The run after `event`.
    pub open spec fn after(self, event: EventView) -> InstantiationView {
        match event {
            EventView::Refused(failure) => self.failed(EngineError::of_store(failure)),
            EventView::Template(found) => if found {
                InstantiationView { phase: Phase::Reading, ..self }
            } else {
                self.failed(EngineError::NotFound)
            },
            EventView::Steps(steps) => InstantiationView {
                phase: if steps.len() == 0 {
                    Phase::Done
                } else {
                    Phase::Writing
                },
                titles: step_names(steps),
                ..self
            },
            EventView::Written(task) => InstantiationView {
                phase: if self.created.len() + 1 == self.titles.len() {
                    Phase::Done
                } else {
                    Phase::Writing
                },
                created: self.created.push(task),
                ..self
            },
        }
    }

    /// A refusal ends a run with the error that stands for it, and takes
    /// nothing back: the tasks that were written are still held.
    pub proof fn lemma_refusal_keeps_written(self, failure: StoreFailure)
        ensures
            self.after(EventView::Refused(failure)).phase == Phase::Done,
            self.after(EventView::Refused(failure)).created == self.created,
            self.after(EventView::Refused(failure)).pending() == ActionView::Finish(
                Err(EngineError::of_store(failure)),
            ),
    {
    }

    /// An event that answers a run leaves it a run.
    pub proof fn lemma_after_wf(self, event: EventView)
        requires
            self.wf(),
            self.awaits(event),
        ensures
            self.after(event).wf(),
    {
    }
}

/// The run of one workflow instantiation.
pub struct Instantiation {
    template_id: u128,
    project_id: u128,
    phase: Phase,
    titles: Vec<String>,
    created: Vec<Task>,
    failure: Option<EngineError>,
}

impl View for Instantiation {
    type V = InstantiationView;

    closed spec fn view(&self) -> InstantiationView {
        InstantiationView {
            template_id: self.template_id,
            project_id: self.project_id,
            phase: self.phase,
            titles: texts(self.titles@),
            created: views(self.created@),
            failure: self.failure,
        }
    }
}

impl Instantiation {
    /// Whether the run is one that `begin` and `advance` can have made.
    pub open spec fn wf(&self) -> bool {
        self@.wf()
    }

    /// Begins a run; it asks for the template first.
    pub fn begin(template_id: u128, project_id: u128) -> (begun: (Instantiation, Action))
        ensures
            begun.0.wf(),
            begun.0@ == InstantiationView::begun(template_id, project_id),
            begun.1@ == begun.0@.pending(),
    {
        let run = Instantiation {
            template_id,
            project_id,
            phase: Phase::Finding,
            titles: Vec::new(),
            created: Vec::new(),
            failure: None,
        };
        assert(run@.titles =~= Seq::empty());
        assert(run@.created =~= Seq::empty());
        (run, Action::FindTemplate { template_id })
    }

    /// Whether `event` answers what the run asks for.
    pub fn awaits(&self, event: &Event) -> (answers: bool)
        ensures
            answers == self@.awaits(event@),
    {
        match (self.phase, event) {
            (Phase::Finding, Event::Template(_)) => true,
            (Phase::Reading, Event::Steps(_)) => true,
            (Phase::Writing, Event::Written(_)) => true,
            (Phase::Finding, Event::Refused(_)) => true,
            (Phase::Reading, Event::Refused(_)) => true,
            (Phase::Writing, Event::Refused(_)) => true,
            _ => false,
        }
    }

    /// The tasks that were written so far. After a failure these are the
    /// tasks that stand in the store none the less.
    pub fn written(&self) -> (tasks: Vec<Task>)
        ensures
            views(tasks@) == self@.created,
    {
        let mut tasks: Vec<Task> = Vec::new();
        for i in 0..self.created.len()
            invariant
                views(tasks@) == self@.created.take(i as int),
        {
            let ghost copied = views(tasks@);
            tasks.push(self.created[i].clone());
            assert(self@.created[i as int] == self.created@[i as int]@);
            assert(views(tasks@) =~= copied.push(self.created@[i as int]@));
            assert(views(tasks@) =~= self@.created.take(i + 1));
        }
        assert(self@.created.take(self.created.len() as int) =~= self@.created);
        tasks
    }

    /// What the run asks for.
    pub fn pending(&self) -> (action: Action)
        requires
            self.wf(),
        ensures
            action@ == self@.pending(),
    {
        match self.phase {
            Phase::Finding => Action::FindTemplate { template_id: self.template_id },
            Phase::Reading => Action::ReadSteps { template_id: self.template_id },
            Phase::Writing => Action::WriteTask {
                title: self.titles[self.created.len()].clone(),
                project_id: self.project_id,
            },
            Phase::Done => match &self.failure {
                Some(error) => Action::Finish(Err(error.clone())),
                None => Action::Finish(Ok(self.written())),
            },
        }
    }

    /// Takes the answer to what the run asked for, and says what it asks
    /// for next.
    pub fn advance(&mut self, event: Event) -> (action: Action)
        requires
            old(self).wf(),
            old(self)@.awaits(event@),
        ensures
            final(self).wf(),
            final(self)@ == old(self)@.after(event@),
            action@ == final(self)@.pending(),
    {
        match event {
            Event::Refused(failure) => {
                self.phase = Phase::Done;
                self.failure = Some(EngineError::from_store(failure));
            },
            Event::Template(found) => {
                if found {
                    self.phase = Phase::Reading;
                } else {
                    self.phase = Phase::Done;
                    self.failure = Some(EngineError::NotFound);
                }
            },
            Event::Steps(steps) => {
                self.titles = planned_titles(&steps);
                self.phase = if steps.len() == 0 {
                    Phase::Done
                } else {
                    Phase::Writing
                };
            },
            Event::Written(task) => {
                self.created.push(task);
                self.phase = if self.created.len() == self.titles.len() {
                    Phase::Done
                } else {
                    Phase::Writing
                };
                assert(final(self)@.created =~= old(self)@.created.push(task@));
            },
        }
        self.pending()
    }
}

} // verus!
