//! Queries and mutations. Identifiers arrive as text and are read before the
//! store is touched; the caller's identity arrives as an identifier.

use crate::ai::project_scoper::{scope_project, scoped, Exchange};
use crate::error::EngineError;
use crate::ident::{parse_id, parsed_uuid};
use crate::models::growth_template::{GrowthTemplate, GrowthTemplateView};
use crate::models::project::{Project, ProjectView};
use crate::models::raci_assignment::RaciAssignment;
use crate::models::raci_role::RaciRole;
use crate::models::task::{Task, TaskView};
use crate::models::task_status::TaskStatus;
use crate::models::user::{normalized_email, User, UserView};
use crate::models::workflow_step::{WorkflowStep, WorkflowStepView};
use crate::models::workflow_template::{WorkflowTemplate, WorkflowTemplateView};
use crate::password::{hash_password, is_hash_of};
use crate::store::state::{tasks_created, views};
use crate::store::Store;
use crate::text::{lowercased, text_of};
use crate::workflow::{apply_template, refusal};
use vstd::prelude::*;
use vstd::string::StringExecFns;

verus! {

/// The queries.
pub struct QueryRoot;

/// The mutations.
pub struct MutationRoot;

/// What a failed scoping is reported with, before the account of the failure.
pub open spec fn scoping_failed() -> Seq<char> {
    "led to scope project with AI: "@
}

impl QueryRoot {
    /// Says that the engine is there.
    pub fn health(&self) -> (status: &'static str)
        ensures
            status@ == "Server is up and running!"@,
    {
        "Server is up and running!"
    }

    /// The projects that `caller` owns, in the order in which they were
    /// written.
    pub fn get_projects(&self, store: &Store, caller: u128) -> (projects: Vec<Project>)
        ensures
            views(projects@) == store@.projects_of(caller),
    {
        store.projects_of(caller)
    }

    /// The project with this identifier, if there is one.
    pub fn get_project_by_id(&self, store: &Store, id: &str) -> (found: Result<
        Option<Project>,
        EngineError,
    >)
        requires
            store.wf(),
        ensures
            match parsed_uuid(id@) {
                None => found == Err::<Option<Project>, EngineError>(
                    EngineError::MalformedIdentifier,
                ),
                Some(project_id) => match found {
                    Ok(Some(project)) => store@.has_project(project_id) && project@
                        == store@.project(project_id),
                    Ok(None) => !store@.has_project(project_id),
                    Err(_) => false,
                },
            },
    {
        match parse_id(id) {
            Err(error) => Err(error),
            Ok(project_id) => Ok(store.project(project_id)),
        }
    }

    /// All users, ascending by email.
    pub fn get_users(&self, store: &Store) -> (users: Vec<User>)
        ensures
            views(users@) == store@.users_by_email(),
    {
        store.users_by_email()
    }

    /// All workflow templates, ascending by name.
    pub fn get_workflow_templates(&self, store: &Store) -> (templates: Vec<WorkflowTemplate>)
        ensures
            views(templates@) == store@.templates_by_name(),
    {
        store.templates_by_name()
    }

    /// The workflow template with this identifier, if there is one.
    pub fn get_workflow_template_by_id(&self, store: &Store, id: &str) -> (found: Result<
        Option<WorkflowTemplate>,
        EngineError,
    >)
        requires
            store.wf(),
        ensures
            match parsed_uuid(id@) {
                None => found == Err::<Option<WorkflowTemplate>, EngineError>(
                    EngineError::MalformedIdentifier,
                ),
                Some(template_id) => match found {
                    Ok(Some(template)) => store@.has_template(template_id) && template@
                        == store@.template(template_id),
                    Ok(None) => !store@.has_template(template_id),
                    Err(_) => false,
                },
            },
    {
        match parse_id(id) {
            Err(error) => Err(error),
            Ok(template_id) => Ok(store.template(template_id)),
        }
    }
}

impl MutationRoot {
    /// Registers a user under the lower-case form of `email`; what is stored
    /// with the user is a hash of `password`. An email that a user has
    /// already is a conflict. The password is hashed first: where that
    /// fails, nothing else is tried.
    pub fn register_user(
        &self,
        store: &mut Store,
        email: String,
        password: String,
    ) -> (registered: Result<User, EngineError>)
        requires
            old(store).wf(),
        ensures
            final(store).wf(),
            match registered {
                Ok(user) => {
                    &&& !old(store)@.has_email(lowercased(email@))
                    &&& user@ == (UserView {
                        id: old(store)@.next_id,
                        email: lowercased(email@),
                    })
                    &&& final(store)@ == old(store)@.with_user(
                        lowercased(email@),
                        final(store)@.password_hashes.last(),
                    )
                    &&& is_hash_of(password@, final(store)@.password_hashes.last())
                },
                Err(error) => {
                    &&& final(store)@ == old(store)@
                    &&& error is UpstreamError || (error == EngineError::Conflict
                        && old(store)@.has_email(lowercased(email@)))
                },
            },
    {
        let password_hash = match hash_password(password.as_str()) {
            Ok(hash) => hash,
            Err(error) => {
                return Err(error);
            },
        };
        store.insert_user(normalized_email(email.as_str()), password_hash)
    }

    /// Writes a growth template for `caller`.
    pub fn create_growth_template(
        &self,
        store: &mut Store,
        caller: u128,
        core_competencies: String,
        developing_skills: String,
        recent_achievements: String,
        how_to_contribute: String,
    ) -> (written: Result<GrowthTemplate, EngineError>)
        requires
            old(store).wf(),
        ensures
            final(store).wf(),
            match written {
                Ok(template) => {
                    &&& old(store)@.has_user(caller)
                    &&& template@ == (GrowthTemplateView {
                        id: old(store)@.next_id,
                        user_id: caller,
                        core_competencies: core_competencies@,
                        developing_skills: developing_skills@,
                        recent_achievements: recent_achievements@,
                        how_to_contribute: how_to_contribute@,
                    })
                    &&& final(store)@ == old(store)@.with_growth_template(
                        caller,
                        core_competencies@,
                        developing_skills@,
                        recent_achievements@,
                        how_to_contribute@,
                    )
                },
                Err(error) => {
                    &&& !old(store)@.has_user(caller)
                    &&& error == EngineError::InvalidReference
                    &&& final(store)@ == old(store)@
                },
            },
    {
        store.insert_growth_template(
            caller,
            core_competencies,
            developing_skills,
            recent_achievements,
            how_to_contribute,
        )
    }

    /// The tasks that the collaborator suggests, as the raw text of its
    /// reply. Nothing is parsed and nothing is written.
    pub fn scope_project_with_ai(&self, exchange: Exchange) -> (suggested: Result<
        String,
        EngineError,
    >)
        ensures
            match scoped(exchange) {
                Ok(text) => suggested matches Ok(raw) && raw@ == text,
                Err(account) => suggested matches Err(EngineError::UpstreamError(said)) && said@
                    == scoping_failed() + account,
            },
    {
        match scope_project(exchange) {
            Ok(tasks) => Ok(tasks),
            Err(error) => Err(
                EngineError::UpstreamError(
                    String::from_str("led to scope project with AI: ").concat(
                        error.message().as_str(),
                    ),
                ),
            ),
        }
    }

    /// Writes a project that `caller` owns.
    pub fn create_project(
        &self,
        store: &mut Store,
        caller: u128,
        name: String,
        description: Option<String>,
    ) -> (written: Result<Project, EngineError>)
        requires
            old(store).wf(),
        ensures
            final(store).wf(),
            match written {
                Ok(project) => {
                    &&& old(store)@.has_user(caller)
                    &&& project@ == ProjectView::created(
                        old(store)@.next_id,
                        name@,
                        text_of(description),
                        caller,
                    )
                    &&& final(store)@ == old(store)@.with_project(
                        name@,
                        text_of(description),
                        caller,
                    )
                },
                Err(error) => {
                    &&& !old(store)@.has_user(caller)
                    &&& error == EngineError::InvalidReference
                    &&& final(store)@ == old(store)@
                },
            },
    {
        store.insert_project(name, description, caller)
    }

    /// Writes a task in a project: not started, assigned to nobody.
    pub fn create_task(
        &self,
        store: &mut Store,
        title: String,
        project_id: &str,
    ) -> (written: Result<Task, EngineError>)
        requires
            old(store).wf(),
        ensures
            final(store).wf(),
            match written {
                Ok(task) => {
                    &&& parsed_uuid(project_id@) matches Some(project)
                    &&& old(store)@.has_project(project)
                    &&& task@ == TaskView::created(old(store)@.next_id, title@, project)
                    &&& final(store)@ == old(store)@.with_task(title@, project)
                },
                Err(error) => {
                    &&& final(store)@ == old(store)@
                    &&& match parsed_uuid(project_id@) {
                        None => error == EngineError::MalformedIdentifier,
                        Some(project) => error == EngineError::InvalidReference
                            && !old(store)@.has_project(project),
                    }
                },
            },
    {
        match parse_id(project_id) {
            Err(error) => Err(error),
            Ok(project) => store.insert_task(title, project),
        }
    }

    /// Gives a task a status. No move from one status to another is
    /// refused, nor the move to the status that the task has.
    pub fn update_task_status(
        &self,
        store: &mut Store,
        task_id: &str,
        status: TaskStatus,
    ) -> (updated: Result<Task, EngineError>)
        requires
            old(store).wf(),
        ensures
            final(store).wf(),
            parsed_uuid(task_id@) matches Some(id) && old(store)@.has_task(id) ==> updated is Ok,
            match updated {
                Ok(task) => {
                    &&& parsed_uuid(task_id@) matches Some(id)
                    &&& old(store)@.has_task(id)
                    &&& task@ == old(store)@.task(id).with_status(status)
                    &&& final(store)@ == old(store)@.with_status(id, status)
                },
                Err(error) => {
                    &&& final(store)@ == old(store)@
                    &&& match parsed_uuid(task_id@) {
                        None => error == EngineError::MalformedIdentifier,
                        Some(id) => error == EngineError::NotFound && !old(store)@.has_task(id),
                    }
                },
            },
    {
        match parse_id(task_id) {
            Err(error) => Err(error),
            Ok(id) => store.set_task_status(id, status),
        }
    }

    /// Gives a user a role for a task. A pair of user and task has one role:
    /// a later call for the pair overwrites the role of an earlier one.
    pub fn assign_raci_role(
        &self,
        store: &mut Store,
        user_id: &str,
        task_id: &str,
        role: RaciRole,
    ) -> (assigned: Result<RaciAssignment, EngineError>)
        requires
            old(store).wf(),
        ensures
            final(store).wf(),
            match assigned {
                Ok(row) => {
                    &&& parsed_uuid(user_id@) matches Some(user)
                    &&& parsed_uuid(task_id@) matches Some(task)
                    &&& old(store)@.has_user(user)
                    &&& old(store)@.has_task(task)
                    &&& row == (RaciAssignment { user_id: user, task_id: task, role })
                    &&& final(store)@ == old(store)@.with_role(user, task, role)
                },
                Err(error) => {
                    &&& final(store)@ == old(store)@
                    &&& match (parsed_uuid(user_id@), parsed_uuid(task_id@)) {
                        (Some(user), Some(task)) => error == EngineError::InvalidReference && !(
                        old(store)@.has_user(user) && old(store)@.has_task(task)),
                        _ => error == EngineError::MalformedIdentifier,
                    }
                },
            },
    {
        let user = match parse_id(user_id) {
            Ok(id) => id,
            Err(error) => {
                return Err(error);
            },
        };
        let task = match parse_id(task_id) {
            Ok(id) => id,
            Err(error) => {
                return Err(error);
            },
        };
        store.upsert_assignment(user, task, role)
    }

    /// Writes a workflow template in the name of `caller`.
    pub fn create_workflow_template(
        &self,
        store: &mut Store,
        caller: u128,
        name: String,
        description: Option<String>,
    ) -> (written: Result<WorkflowTemplate, EngineError>)
        requires
            old(store).wf(),
        ensures
            final(store).wf(),
            match written {
                Ok(template) => {
                    &&& old(store)@.has_user(caller)
                    &&& template@ == (WorkflowTemplateView {
                        id: old(store)@.next_id,
                        name: name@,
                        description: text_of(description),
                        created_by_id: caller,
                    })
                    &&& final(store)@ == old(store)@.with_template(
                        name@,
                        text_of(description),
                        caller,
                    )
                },
                Err(error) => {
                    &&& !old(store)@.has_user(caller)
                    &&& error == EngineError::InvalidReference
                    &&& final(store)@ == old(store)@
                },
            },
    {
        store.insert_template(name, description, caller)
    }

    /// Adds a step to a workflow template.
    pub fn add_workflow_step(
        &self,
        store: &mut Store,
        template_id: &str,
        step_name: String,
        step_order: i32,
        role: Option<String>,
    ) -> (written: Result<WorkflowStep, EngineError>)
        requires
            old(store).wf(),
        ensures
            final(store).wf(),
            match written {
                Ok(step) => {
                    &&& parsed_uuid(template_id@) matches Some(template)
                    &&& old(store)@.has_template(template)
                    &&& step@ == WorkflowStepView::created(
                        old(store)@.next_id,
                        template,
                        step_name@,
                        step_order,
                        text_of(role),
                    )
                    &&& final(store)@ == old(store)@.with_step(
                        template,
                        step_name@,
                        step_order,
                        text_of(role),
                    )
                },
                Err(error) => {
                    &&& final(store)@ == old(store)@
                    &&& match parsed_uuid(template_id@) {
                        None => error == EngineError::MalformedIdentifier,
                        Some(template) => error == EngineError::InvalidReference
                            && !old(store)@.has_template(template),
                    }
                },
            },
    {
        match parse_id(template_id) {
            Err(error) => Err(error),
            Ok(template) => store.insert_step(template, step_name, step_order, role),
        }
    }

    /// Applies a workflow template to a project: one task for each step of
    /// the template, in step order, under the step's name. A template that
    /// is missing is not found; a template without steps gives no task and
    /// no error; a project that is missing is an invalid reference as soon
    /// as a task is to be written.
    pub fn apply_workflow_template_to_project(
        &self,
        store: &mut Store,
        template_id: &str,
        project_id: &str,
    ) -> (created: Result<Vec<Task>, EngineError>)
        requires
            old(store).wf(),
        ensures
            final(store).wf(),
            match created {
                Ok(tasks) => {
                    &&& parsed_uuid(template_id@) matches Some(template)
                    &&& parsed_uuid(project_id@) matches Some(project)
                    &&& refusal(old(store)@, template, project) is None
                    &&& views(tasks@) == tasks_created(
                        old(store)@.next_id,
                        old(store)@.titles_of(template),
                        project,
                    )
                    &&& final(store)@ == old(store)@.with_tasks(
                        old(store)@.titles_of(template),
                        project,
                    )
                },
                Err(error) => {
                    &&& final(store)@ == old(store)@
                    &&& match (parsed_uuid(template_id@), parsed_uuid(project_id@)) {
                        (Some(template), Some(project)) => refusal(
                            old(store)@,
                            template,
                            project,
                        ) == Some(error),
                        _ => error == EngineError::MalformedIdentifier,
                    }
                },
            },
    {
        let template = match parse_id(template_id) {
            Ok(id) => id,
            Err(error) => {
                return Err(error);
            },
        };
        let project = match parse_id(project_id) {
            Ok(id) => id,
            Err(error) => {
                return Err(error);
            },
        };
        apply_template(store, template, project)
    }

    /// Links a task to a ticket of an outside tracker.
    pub fn link_jira_ticket(
        &self,
        store: &mut Store,
        task_id: &str,
        jira_ticket_id: String,
    ) -> (updated: Result<Task, EngineError>)
        requires
            old(store).wf(),
        ensures
            final(store).wf(),
            match updated {
                Ok(task) => {
                    &&& parsed_uuid(task_id@) matches Some(id)
                    &&& old(store)@.has_task(id)
                    &&& task@ == old(store)@.task(id).with_ticket(jira_ticket_id@)
                    &&& final(store)@ == old(store)@.with_ticket(id, jira_ticket_id@)
                },
                Err(error) => {
                    &&& final(store)@ == old(store)@
                    &&& match parsed_uuid(task_id@) {
                        None => error == EngineError::MalformedIdentifier,
                        Some(id) => error == EngineError::NotFound && !old(store)@.has_task(id),
                    }
                },
            },
    {
        match parse_id(task_id) {
            Err(error) => Err(error),
            Ok(id) => store.set_task_ticket(id, jira_ticket_id),
        }
    }
}

} // verus!
