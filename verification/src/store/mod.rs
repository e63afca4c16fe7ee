//! The persistent store, held in memory: tables of rows that are found by
//! their primary key, with foreign keys and uniqueness enforced on every
//! write. Rows are never deleted.

pub mod order;
pub mod state;

use crate::error::EngineError;
use crate::models::growth_template::{GrowthTemplate, GrowthTemplateView};
use crate::models::project::{Project, ProjectView};
use crate::models::raci_assignment::RaciAssignment;
use crate::models::raci_role::RaciRole;
use crate::models::task::{Task, TaskView};
use crate::models::task_status::TaskStatus;
use crate::models::user::{User, UserView};
use crate::models::workflow_step::{WorkflowStep, WorkflowStepView};
use crate::models::workflow_template::{WorkflowTemplate, WorkflowTemplateView};
use crate::models::Identified;
use crate::store::order::{by_email, by_name, by_step_order, in_order, in_step_order, placed, slot};
use crate::store::state::{
    for_task, in_project, in_template, lemma_issued_once, owned_by, views, StoreView,
};
use crate::text::{precedes, text_of};
use vstd::prelude::*;

verus! {

/// The store. Its rows are reached through its operations only, so every
/// store keeps the rules of [`StoreView::wf`]; what it holds is its view.
pub struct Store {
    users: Vec<User>,
    password_hashes: Vec<String>,
    projects: Vec<Project>,
    tasks: Vec<Task>,
    assignments: Vec<RaciAssignment>,
    templates: Vec<WorkflowTemplate>,
    steps: Vec<WorkflowStep>,
    growth_templates: Vec<GrowthTemplate>,
    next_id: u128,
}

impl View for Store {
    type V = StoreView;

    closed spec fn view(&self) -> StoreView {
        StoreView {
            users: views(self.users@),
            password_hashes: self.password_hashes@.map_values(|hash: String| hash@),
            projects: views(self.projects@),
            tasks: views(self.tasks@),
            assignments: self.assignments@,
            templates: views(self.templates@),
            steps: views(self.steps@),
            growth_templates: views(self.growth_templates@),
            next_id: self.next_id,
        }
    }
}

/// Where the row with identifier `id` stands among `rows`.
fn position_of<T: Identified>(rows: &Vec<T>, id: u128) -> (at: Option<usize>)
    ensures
        match at {
            Some(i) => i < rows.len() && rows@[i as int].ident() == id,
            None => forall|k: int| 0 <= k < rows.len() ==> (#[trigger] rows@[k]).ident() != id,
        },
{
    let mut i: usize = 0;
    while i < rows.len()
        invariant
            i <= rows.len(),
            forall|k: int| 0 <= k < i ==> (#[trigger] rows@[k]).ident() != id,
        decreases rows.len() - i,
    {
        if rows[i].key() == id {
            return Some(i);
        }
        i += 1;
    }
    None
}

/// Puts a step in its place among steps that are in step order.
fn place_step(sorted: &mut Vec<WorkflowStep>, step: WorkflowStep)
    ensures
        views(final(sorted)@) == placed(views(old(sorted)@), step@, by_step_order()),
{
    let ghost before = views(sorted@);
    let mut at: usize = sorted.len();
    assert(before.take(at as int) =~= before);
    while at > 0 && sorted[at - 1].step_order > step.step_order
        invariant
            at <= sorted.len(),
            before == views(sorted@),
            slot(before, step@, by_step_order()) == slot(
                before.take(at as int),
                step@,
                by_step_order(),
            ),
        decreases at,
    {
        assert(before.take(at as int).drop_last() =~= before.take(at - 1));
        at -= 1;
    }
    sorted.insert(at, step);
    assert(views(sorted@) =~= before.insert(at as int, step@));
}

/// Puts a user in its place among users that are ordered by email.
fn place_user(sorted: &mut Vec<User>, user: User)
    ensures
        views(final(sorted)@) == placed(views(old(sorted)@), user@, by_email()),
{
    let ghost before = views(sorted@);
    let mut at: usize = sorted.len();
    assert(before.take(at as int) =~= before);
    while at > 0 && !precedes(sorted[at - 1].email.as_str(), user.email.as_str())
        invariant
            at <= sorted.len(),
            before == views(sorted@),
            slot(before, user@, by_email()) == slot(before.take(at as int), user@, by_email()),
        decreases at,
    {
        assert(before.take(at as int).drop_last() =~= before.take(at - 1));
        at -= 1;
    }
    sorted.insert(at, user);
    assert(views(sorted@) =~= before.insert(at as int, user@));
}

/// Puts a template in its place among templates that are ordered by name.
fn place_template(sorted: &mut Vec<WorkflowTemplate>, template: WorkflowTemplate)
    ensures
        views(final(sorted)@) == placed(views(old(sorted)@), template@, by_name()),
{
    let ghost before = views(sorted@);
    let mut at: usize = sorted.len();
    assert(before.take(at as int) =~= before);
    while at > 0 && !precedes(sorted[at - 1].name.as_str(), template.name.as_str())
        invariant
            at <= sorted.len(),
            before == views(sorted@),
            slot(before, template@, by_name()) == slot(
                before.take(at as int),
                template@,
                by_name(),
            ),
        decreases at,
    {
        assert(before.take(at as int).drop_last() =~= before.take(at - 1));
        at -= 1;
    }
    sorted.insert(at, template);
    assert(views(sorted@) =~= before.insert(at as int, template@));
}

impl Store {
    /// Whether the store keeps its rules. Every store that this module hands
    /// out does, and every operation keeps it so.
    pub open spec fn wf(&self) -> bool {
        self@.wf()
    }

    /// An identifier is left to issue: the rows of a store fit in memory.
    proof fn lemma_room(&self)
        requires
            self.wf(),
        ensures
            0 < self@.next_id < u128::MAX,
    {
        assert(self@.users.len() == self.users.len());
        assert(self@.projects.len() == self.projects.len());
        assert(self@.tasks.len() == self.tasks.len());
        assert(self@.templates.len() == self.templates.len());
        assert(self@.steps.len() == self.steps.len());
        assert(self@.growth_templates.len() == self.growth_templates.len());
    }

    /// A store without rows.
    pub fn new() -> (store: Store)
        ensures
            store@ == StoreView::empty(),
            store.wf(),
    {
        let store = Store {
            users: Vec::new(),
            password_hashes: Vec::new(),
            projects: Vec::new(),
            tasks: Vec::new(),
            assignments: Vec::new(),
            templates: Vec::new(),
            steps: Vec::new(),
            growth_templates: Vec::new(),
            next_id: 1,
        };
        assert(store@.users =~= Seq::empty());
        assert(store@.password_hashes =~= Seq::empty());
        assert(store@.projects =~= Seq::empty());
        assert(store@.tasks =~= Seq::empty());
        assert(store@.templates =~= Seq::empty());
        assert(store@.steps =~= Seq::empty());
        assert(store@.growth_templates =~= Seq::empty());
        store
    }

    fn find_user(&self, id: u128) -> (at: Option<usize>)
        requires
            self.wf(),
        ensures
            at is Some == self@.has_user(id),
            at matches Some(i) ==> i < self.users.len() && self@.user_ids().index_of(id) == i,
    {
        let at = position_of(&self.users, id);
        proof {
            match at {
                Some(i) => {
                    assert(self@.user_ids()[i as int] == id);
                    lemma_issued_once(self@.user_ids(), self@.next_id, i as int);
                },
                None => {
                    assert forall|k: int| 0 <= k < self@.user_ids().len() implies #[trigger] self@.user_ids()[k]
                        != id by {
                        assert(self.users@[k].ident() != id);
                    }
                },
            }
        }
        at
    }

    fn find_project(&self, id: u128) -> (at: Option<usize>)
        requires
            self.wf(),
        ensures
            at is Some == self@.has_project(id),
            at matches Some(i) ==> i < self.projects.len() && self@.project_ids().index_of(id)
                == i,
    {
        let at = position_of(&self.projects, id);
        proof {
            match at {
                Some(i) => {
                    assert(self@.project_ids()[i as int] == id);
                    lemma_issued_once(self@.project_ids(), self@.next_id, i as int);
                },
                None => {
                    assert forall|k: int| 0 <= k < self@.project_ids().len() implies #[trigger] self@.project_ids()[k]
                        != id by {
                        assert(self.projects@[k].ident() != id);
                    }
                },
            }
        }
        at
    }

    fn find_task(&self, id: u128) -> (at: Option<usize>)
        requires
            self.wf(),
        ensures
            at is Some == self@.has_task(id),
            at matches Some(i) ==> i < self.tasks.len() && self@.task_ids().index_of(id) == i,
    {
        let at = position_of(&self.tasks, id);
        proof {
            match at {
                Some(i) => {
                    assert(self@.task_ids()[i as int] == id);
                    lemma_issued_once(self@.task_ids(), self@.next_id, i as int);
                },
                None => {
                    assert forall|k: int| 0 <= k < self@.task_ids().len() implies #[trigger] self@.task_ids()[k]
                        != id by {
                        assert(self.tasks@[k].ident() != id);
                    }
                },
            }
        }
        at
    }

    fn find_template(&self, id: u128) -> (at: Option<usize>)
        requires
            self.wf(),
        ensures
            at is Some == self@.has_template(id),
            at matches Some(i) ==> i < self.templates.len() && self@.template_ids().index_of(id)
                == i,
    {
        let at = position_of(&self.templates, id);
        proof {
            match at {
                Some(i) => {
                    assert(self@.template_ids()[i as int] == id);
                    lemma_issued_once(self@.template_ids(), self@.next_id, i as int);
                },
                None => {
                    assert forall|k: int| 0 <= k < self@.template_ids().len() implies #[trigger] self@.template_ids()[k]
                        != id by {
                        assert(self.templates@[k].ident() != id);
                    }
                },
            }
        }
        at
    }

    /// Writes a task; the project must exist.
    pub fn insert_task(&mut self, title: String, project_id: u128) -> (written: Result<
        Task,
        EngineError,
    >)
        requires
            old(self).wf(),
        ensures
            final(self).wf(),
            match written {
                Ok(task) => {
                    &&& old(self)@.has_project(project_id)
                    &&& task@ == TaskView::created(old(self)@.next_id, title@, project_id)
                    &&& final(self)@ == old(self)@.with_task(title@, project_id)
                },
                Err(error) => {
                    &&& !old(self)@.has_project(project_id)
                    &&& error == EngineError::InvalidReference
                    &&& final(self)@ == old(self)@
                },
            },
    {
        if self.find_project(project_id).is_none() {
            return Err(EngineError::InvalidReference);
        }
        proof {
            self.lemma_room();
            self@.lemma_with_task(title@, project_id);
        }
        let task = Task {
            id: self.next_id,
            title,
            project_id,
            assigned_to_id: None,
            status: TaskStatus::NotStarted,
            deadline: None,
            jira_ticket_id: None,
        };
        let written = task.clone();
        self.tasks.push(task);
        self.next_id = self.next_id + 1;
        assert(final(self)@.tasks =~= old(self)@.tasks.push(written@));
        Ok(written)
    }

    /// Gives the task `id` a status. Any status may follow any other.
    pub fn set_task_status(&mut self, id: u128, status: TaskStatus) -> (updated: Result<
        Task,
        EngineError,
    >)
        requires
            old(self).wf(),
        ensures
            final(self).wf(),
            old(self)@.has_task(id) ==> updated is Ok,
            match updated {
                Ok(task) => {
                    &&& old(self)@.has_task(id)
                    &&& task@ == old(self)@.task(id).with_status(status)
                    &&& final(self)@ == old(self)@.with_status(id, status)
                },
                Err(error) => {
                    &&& !old(self)@.has_task(id)
                    &&& error == EngineError::NotFound
                    &&& final(self)@ == old(self)@
                },
            },
    {
        match self.find_task(id) {
            None => Err(EngineError::NotFound),
            Some(at) => {
                proof {
                    self@.lemma_with_status(id, status);
                }
                let mut task = self.tasks[at].clone();
                task.status = status;
                let updated = task.clone();
                self.tasks.set(at, task);
                assert(final(self)@.tasks =~= old(self)@.tasks.update(at as int, updated@));
                Ok(updated)
            },
        }
    }

    /// Whether a user has this email, as it stands.
    fn email_taken(&self, email: &String) -> (taken: bool)
        ensures
            taken == self@.has_email(email@),
    {
        let mut i: usize = 0;
        while i < self.users.len()
            invariant
                i <= self.users.len(),
                forall|k: int| 0 <= k < i ==> (#[trigger] self.users@[k]).email@ != email@,
            decreases self.users.len() - i,
        {
            if self.users[i].email == *email {
                assert(self@.emails()[i as int] == email@);
                return true;
            }
            i += 1;
        }
        assert forall|k: int| 0 <= k < self@.emails().len() implies self@.emails()[k]
            != email@ by {
            assert(self.users@[k].email@ != email@);
        }
        false
    }

    /// Where the assignment of `user_id` for `task_id` stands.
    fn find_assignment(&self, user_id: u128, task_id: u128) -> (at: Option<usize>)
        requires
            self.wf(),
        ensures
            at is Some == self@.has_assignment(user_id, task_id),
            at matches Some(i) ==> i < self.assignments.len() && self@.assignment_index(
                user_id,
                task_id,
            ) == i,
    {
        let mut i: usize = 0;
        while i < self.assignments.len()
            invariant
                self.wf(),
                i <= self.assignments.len(),
                forall|k: int|
                    0 <= k < i ==> !(#[trigger] self.assignments@[k]).pairs(user_id, task_id),
            decreases self.assignments.len() - i,
        {
            let row = self.assignments[i];
            if row.user_id == user_id && row.task_id == task_id {
                proof {
                    self@.lemma_assignment_once(user_id, task_id, i as int);
                }
                return Some(i);
            }
            i += 1;
        }
        None
    }

    /// The user with this identifier.
    pub fn user(&self, id: u128) -> (found: Option<User>)
        requires
            self.wf(),
        ensures
            match found {
                Some(user) => self@.has_user(id) && user@ == self@.user(id) && user.id == id,
                None => !self@.has_user(id),
            },
    {
        match self.find_user(id) {
            Some(at) => {
                assert(self@.user_ids()[at as int] == self.users@[at as int].id);
                Some(self.users[at].clone())
            },
            None => None,
        }
    }

    /// The password hash of the user with this identifier.
    pub fn password_hash(&self, id: u128) -> (found: Option<String>)
        requires
            self.wf(),
        ensures
            match found {
                Some(hash) => self@.has_user(id) && hash@ == self@.password_hash(id),
                None => !self@.has_user(id),
            },
    {
        match self.find_user(id) {
            Some(at) => {
                assert(self@.password_hashes.len() == self.password_hashes.len());
                Some(self.password_hashes[at].clone())
            },
            None => None,
        }
    }

    /// The project with this identifier.
    pub fn project(&self, id: u128) -> (found: Option<Project>)
        requires
            self.wf(),
        ensures
            match found {
                Some(project) => self@.has_project(id) && project@ == self@.project(id)
                    && project.id == id,
                None => !self@.has_project(id),
            },
    {
        match self.find_project(id) {
            Some(at) => {
                assert(self@.project_ids()[at as int] == self.projects@[at as int].id);
                Some(self.projects[at].clone())
            },
            None => None,
        }
    }

    /// The task with this identifier.
    pub fn task(&self, id: u128) -> (found: Option<Task>)
        requires
            self.wf(),
        ensures
            match found {
                Some(task) => self@.has_task(id) && task@ == self@.task(id) && task.id == id,
                None => !self@.has_task(id),
            },
    {
        match self.find_task(id) {
            Some(at) => {
                assert(self@.task_ids()[at as int] == self.tasks@[at as int].id);
                Some(self.tasks[at].clone())
            },
            None => None,
        }
    }

    /// The workflow template with this identifier.
    pub fn template(&self, id: u128) -> (found: Option<WorkflowTemplate>)
        requires
            self.wf(),
        ensures
            match found {
                Some(template) => self@.has_template(id) && template@ == self@.template(id)
                    && template.id == id,
                None => !self@.has_template(id),
            },
    {
        match self.find_template(id) {
            Some(at) => {
                assert(self@.template_ids()[at as int] == self.templates@[at as int].id);
                Some(self.templates[at].clone())
            },
            None => None,
        }
    }

    /// Writes a user under an email that no user has yet. The email is kept
    /// as it stands.
    pub fn insert_user(&mut self, email: String, password_hash: String) -> (written: Result<
        User,
        EngineError,
    >)
        requires
            old(self).wf(),
        ensures
            final(self).wf(),
            match written {
                Ok(user) => {
                    &&& !old(self)@.has_email(email@)
                    &&& user@ == (UserView { id: old(self)@.next_id, email: email@ })
                    &&& final(self)@ == old(self)@.with_user(email@, password_hash@)
                },
                Err(error) => {
                    &&& old(self)@.has_email(email@)
                    &&& error == EngineError::Conflict
                    &&& final(self)@ == old(self)@
                },
            },
    {
        if self.email_taken(&email) {
            return Err(EngineError::Conflict);
        }
        proof {
            self.lemma_room();
            self@.lemma_with_user(email@, password_hash@);
        }
        let user = User { id: self.next_id, email };
        let written = user.clone();
        self.users.push(user);
        self.password_hashes.push(password_hash);
        self.next_id = self.next_id + 1;
        assert(final(self)@.users =~= old(self)@.users.push(written@));
        assert(final(self)@.password_hashes =~= old(self)@.password_hashes.push(password_hash@));
        Ok(written)
    }

    /// Writes a project; its owner must exist.
    pub fn insert_project(
        &mut self,
        name: String,
        description: Option<String>,
        owner_id: u128,
    ) -> (written: Result<Project, EngineError>)
        requires
            old(self).wf(),
        ensures
            final(self).wf(),
            match written {
                Ok(project) => {
                    &&& old(self)@.has_user(owner_id)
                    &&& project@ == ProjectView::created(
                        old(self)@.next_id,
                        name@,
                        text_of(description),
                        owner_id,
                    )
                    &&& final(self)@ == old(self)@.with_project(
                        name@,
                        text_of(description),
                        owner_id,
                    )
                },
                Err(error) => {
                    &&& !old(self)@.has_user(owner_id)
                    &&& error == EngineError::InvalidReference
                    &&& final(self)@ == old(self)@
                },
            },
    {
        if self.find_user(owner_id).is_none() {
            return Err(EngineError::InvalidReference);
        }
        proof {
            self.lemma_room();
            self@.lemma_with_project(name@, text_of(description), owner_id);
        }
        let project = Project { id: self.next_id, name, description, deadline: None, owner_id };
        let written = project.clone();
        self.projects.push(project);
        self.next_id = self.next_id + 1;
        assert(final(self)@.projects =~= old(self)@.projects.push(written@));
        Ok(written)
    }

    /// Writes a workflow template; its author must exist.
    pub fn insert_template(
        &mut self,
        name: String,
        description: Option<String>,
        created_by_id: u128,
    ) -> (written: Result<WorkflowTemplate, EngineError>)
        requires
            old(self).wf(),
        ensures
            final(self).wf(),
            match written {
                Ok(template) => {
                    &&& old(self)@.has_user(created_by_id)
                    &&& template@ == (WorkflowTemplateView {
                        id: old(self)@.next_id,
                        name: name@,
                        description: text_of(description),
                        created_by_id,
                    })
                    &&& final(self)@ == old(self)@.with_template(
                        name@,
                        text_of(description),
                        created_by_id,
                    )
                },
                Err(error) => {
                    &&& !old(self)@.has_user(created_by_id)
                    &&& error == EngineError::InvalidReference
                    &&& final(self)@ == old(self)@
                },
            },
    {
        if self.find_user(created_by_id).is_none() {
            return Err(EngineError::InvalidReference);
        }
        proof {
            self.lemma_room();
            self@.lemma_with_template(name@, text_of(description), created_by_id);
        }
        let template = WorkflowTemplate { id: self.next_id, name, description, created_by_id };
        let written = template.clone();
        self.templates.push(template);
        self.next_id = self.next_id + 1;
        assert(final(self)@.templates =~= old(self)@.templates.push(written@));
        Ok(written)
    }

    /// Writes a workflow step at the end of its table; its template must
    /// exist. The step depends on no other.
    pub fn insert_step(
        &mut self,
        template_id: u128,
        step_name: String,
        step_order: i32,
        role: Option<String>,
    ) -> (written: Result<WorkflowStep, EngineError>)
        requires
            old(self).wf(),
        ensures
            final(self).wf(),
            match written {
                Ok(step) => {
                    &&& old(self)@.has_template(template_id)
                    &&& step@ == WorkflowStepView::created(
                        old(self)@.next_id,
                        template_id,
                        step_name@,
                        step_order,
                        text_of(role),
                    )
                    &&& final(self)@ == old(self)@.with_step(
                        template_id,
                        step_name@,
                        step_order,
                        text_of(role),
                    )
                },
                Err(error) => {
                    &&& !old(self)@.has_template(template_id)
                    &&& error == EngineError::InvalidReference
                    &&& final(self)@ == old(self)@
                },
            },
    {
        if self.find_template(template_id).is_none() {
            return Err(EngineError::InvalidReference);
        }
        proof {
            self.lemma_room();
            self@.lemma_with_step(template_id, step_name@, step_order, text_of(role));
        }
        let step = WorkflowStep {
            id: self.next_id,
            template_id,
            step_name,
            step_order,
            role,
            depends_on_step_id: None,
        };
        let written = step.clone();
        self.steps.push(step);
        self.next_id = self.next_id + 1;
        assert(final(self)@.steps =~= old(self)@.steps.push(written@));
        Ok(written)
    }

    /// Writes a growth template; its user must exist.
    pub fn insert_growth_template(
        &mut self,
        user_id: u128,
        core_competencies: String,
        developing_skills: String,
        recent_achievements: String,
        how_to_contribute: String,
    ) -> (written: Result<GrowthTemplate, EngineError>)
        requires
            old(self).wf(),
        ensures
            final(self).wf(),
            match written {
                Ok(template) => {
                    &&& old(self)@.has_user(user_id)
                    &&& template@ == (GrowthTemplateView {
                        id: old(self)@.next_id,
                        user_id,
                        core_competencies: core_competencies@,
                        developing_skills: developing_skills@,
                        recent_achievements: recent_achievements@,
                        how_to_contribute: how_to_contribute@,
                    })
                    &&& final(self)@ == old(self)@.with_growth_template(
                        user_id,
                        core_competencies@,
                        developing_skills@,
                        recent_achievements@,
                        how_to_contribute@,
                    )
                },
                Err(error) => {
                    &&& !old(self)@.has_user(user_id)
                    &&& error == EngineError::InvalidReference
                    &&& final(self)@ == old(self)@
                },
            },
    {
        if self.find_user(user_id).is_none() {
            return Err(EngineError::InvalidReference);
        }
        proof {
            self.lemma_room();
            self@.lemma_with_growth_template(
                user_id,
                core_competencies@,
                developing_skills@,
                recent_achievements@,
                how_to_contribute@,
            );
        }
        let template = GrowthTemplate {
            id: self.next_id,
            user_id,
            core_competencies,
            developing_skills,
            recent_achievements,
            how_to_contribute,
        };
        let written = template.clone();
        self.growth_templates.push(template);
        self.next_id = self.next_id + 1;
        assert(final(self)@.growth_templates =~= old(self)@.growth_templates.push(written@));
        Ok(written)
    }

    /// Links the task `id` to a ticket of an outside tracker.
    pub fn set_task_ticket(&mut self, id: u128, ticket: String) -> (updated: Result<
        Task,
        EngineError,
    >)
        requires
            old(self).wf(),
        ensures
            final(self).wf(),
            match updated {
                Ok(task) => {
                    &&& old(self)@.has_task(id)
                    &&& task@ == old(self)@.task(id).with_ticket(ticket@)
                    &&& final(self)@ == old(self)@.with_ticket(id, ticket@)
                },
                Err(error) => {
                    &&& !old(self)@.has_task(id)
                    &&& error == EngineError::NotFound
                    &&& final(self)@ == old(self)@
                },
            },
    {
        match self.find_task(id) {
            None => Err(EngineError::NotFound),
            Some(at) => {
                proof {
                    self@.lemma_with_ticket(id, ticket@);
                }
                let mut task = self.tasks[at].clone();
                task.jira_ticket_id = Some(ticket);
                let updated = task.clone();
                self.tasks.set(at, task);
                assert(final(self)@.tasks =~= old(self)@.tasks.update(at as int, updated@));
                Ok(updated)
            },
        }
    }

    /// Gives `user_id` the role `role` for `task_id` in one step: the role of
    /// an assignment that exists is overwritten, else an assignment is
    /// written. User and task must exist.
    pub fn upsert_assignment(
        &mut self,
        user_id: u128,
        task_id: u128,
        role: RaciRole,
    ) -> (written: Result<RaciAssignment, EngineError>)
        requires
            old(self).wf(),
        ensures
            final(self).wf(),
            match written {
                Ok(row) => {
                    &&& old(self)@.has_user(user_id)
                    &&& old(self)@.has_task(task_id)
                    &&& row == (RaciAssignment { user_id, task_id, role })
                    &&& final(self)@ == old(self)@.with_role(user_id, task_id, role)
                },
                Err(error) => {
                    &&& !(old(self)@.has_user(user_id) && old(self)@.has_task(task_id))
                    &&& error == EngineError::InvalidReference
                    &&& final(self)@ == old(self)@
                },
            },
    {
        if self.find_user(user_id).is_none() || self.find_task(task_id).is_none() {
            return Err(EngineError::InvalidReference);
        }
        proof {
            self@.lemma_with_role(user_id, task_id, role);
        }
        let row = RaciAssignment { user_id, task_id, role };
        match self.find_assignment(user_id, task_id) {
            Some(at) => {
                self.assignments.set(at, row);
            },
            None => {
                self.assignments.push(row);
            },
        }
        Ok(row)
    }

    /// The tasks of a project, in the order in which they were written.
    pub fn tasks_of(&self, project_id: u128) -> (found: Vec<Task>)
        ensures
            views(found@) == self@.tasks_of(project_id),
    {
        let ghost rows = self@.tasks;
        let mut found: Vec<Task> = Vec::new();
        assert(rows.take(0) =~= Seq::empty());
        for i in 0..self.tasks.len()
            invariant
                rows == self@.tasks,
                views(found@) == rows.take(i as int).filter(in_project(project_id)),
        {
            proof {
                assert(rows.take(i + 1) =~= rows.take(i as int).push(rows[i as int]));
                rows.take(i as int).lemma_filter_push(rows[i as int], in_project(project_id));
            }
            if self.tasks[i].project_id == project_id {
                found.push(self.tasks[i].clone());
                assert(views(found@) =~= rows.take(i + 1).filter(in_project(project_id)));
            }
        }
        assert(rows.take(self.tasks.len() as int) =~= rows);
        found
    }

    /// The projects of an owner, in the order in which they were written.
    pub fn projects_of(&self, owner_id: u128) -> (found: Vec<Project>)
        ensures
            views(found@) == self@.projects_of(owner_id),
    {
        let ghost rows = self@.projects;
        let mut found: Vec<Project> = Vec::new();
        assert(rows.take(0) =~= Seq::empty());
        for i in 0..self.projects.len()
            invariant
                rows == self@.projects,
                views(found@) == rows.take(i as int).filter(owned_by(owner_id)),
        {
            proof {
                assert(rows.take(i + 1) =~= rows.take(i as int).push(rows[i as int]));
                rows.take(i as int).lemma_filter_push(rows[i as int], owned_by(owner_id));
            }
            if self.projects[i].owner_id == owner_id {
                found.push(self.projects[i].clone());
                assert(views(found@) =~= rows.take(i + 1).filter(owned_by(owner_id)));
            }
        }
        assert(rows.take(self.projects.len() as int) =~= rows);
        found
    }

    /// The assignments for a task, in the order in which they were written.
    pub fn assignments_of(&self, task_id: u128) -> (found: Vec<RaciAssignment>)
        ensures
            found@ == self@.assignments_of(task_id),
    {
        let ghost rows = self@.assignments;
        let mut found: Vec<RaciAssignment> = Vec::new();
        assert(rows.take(0) =~= Seq::empty());
        for i in 0..self.assignments.len()
            invariant
                rows == self@.assignments,
                found@ == rows.take(i as int).filter(for_task(task_id)),
        {
            proof {
                assert(rows.take(i + 1) =~= rows.take(i as int).push(rows[i as int]));
                rows.take(i as int).lemma_filter_push(rows[i as int], for_task(task_id));
            }
            if self.assignments[i].task_id == task_id {
                found.push(self.assignments[i]);
            }
        }
        assert(rows.take(self.assignments.len() as int) =~= rows);
        found
    }

    /// The steps of a template, in step order: ascending by their sort key,
    /// steps with the same key in the order in which they were written.
    pub fn steps_of(&self, template_id: u128) -> (found: Vec<WorkflowStep>)
        ensures
            views(found@) == self@.steps_of(template_id),
    {
        let ghost rows = self@.steps;
        let mut found: Vec<WorkflowStep> = Vec::new();
        assert(rows.take(0) =~= Seq::empty());
        for i in 0..self.steps.len()
            invariant
                rows == self@.steps,
                views(found@) == in_step_order(
                    rows.take(i as int).filter(in_template(template_id)),
                ),
        {
            proof {
                assert(rows.take(i + 1) =~= rows.take(i as int).push(rows[i as int]));
                rows.take(i as int).lemma_filter_push(rows[i as int], in_template(template_id));
            }
            if self.steps[i].template_id == template_id {
                let ghost before = rows.take(i as int).filter(in_template(template_id));
                assert(before.push(rows[i as int]).drop_last() =~= before);
                place_step(&mut found, self.steps[i].clone());
            }
        }
        assert(rows.take(self.steps.len() as int) =~= rows);
        found
    }

    /// All users, ascending by email.
    pub fn users_by_email(&self) -> (found: Vec<User>)
        ensures
            views(found@) == self@.users_by_email(),
    {
        let ghost rows = self@.users;
        let mut found: Vec<User> = Vec::new();
        assert(rows.take(0) =~= Seq::empty());
        for i in 0..self.users.len()
            invariant
                rows == self@.users,
                views(found@) == in_order(rows.take(i as int), by_email()),
        {
            assert(rows.take(i + 1).drop_last() =~= rows.take(i as int));
            place_user(&mut found, self.users[i].clone());
        }
        assert(rows.take(self.users.len() as int) =~= rows);
        found
    }

    /// All workflow templates, ascending by name; templates of one name in
    /// the order in which they were written.
    pub fn templates_by_name(&self) -> (found: Vec<WorkflowTemplate>)
        ensures
            views(found@) == self@.templates_by_name(),
    {
        let ghost rows = self@.templates;
        let mut found: Vec<WorkflowTemplate> = Vec::new();
        assert(rows.take(0) =~= Seq::empty());
        for i in 0..self.templates.len()
            invariant
                rows == self@.templates,
                views(found@) == in_order(rows.take(i as int), by_name()),
        {
            assert(rows.take(i + 1).drop_last() =~= rows.take(i as int));
            place_template(&mut found, self.templates[i].clone());
        }
        assert(rows.take(self.templates.len() as int) =~= rows);
        found
    }
}

} // verus!
