//! A task: a unit of work that belongs to one project for its lifetime.

use crate::ident::{hyphenated, parsed_uuid, uuid_to_text};
use crate::models::task_status::TaskStatus;
use crate::models::{reference_text, Identified};
use crate::text::{borrow_text, copy_text, str_of, text_of};
use crate::models::raci_assignment::RaciAssignment;
use crate::store::Store;
use vstd::prelude::*;

verus! {

/// A task.
#[derive(Debug, PartialEq, Eq)]
pub struct Task {
    pub id: u128,
    pub title: String,
    /// The owning project; never changed after creation.
    pub project_id: u128,
    pub assigned_to_id: Option<u128>,
    pub status: TaskStatus,
    /// Microseconds since the Unix epoch, in UTC.
    pub deadline: Option<i64>,
    pub jira_ticket_id: Option<String>,
}

/// A task, as a mathematical value.
pub struct TaskView {
    pub id: u128,
    pub title: Seq<char>,
    pub project_id: u128,
    pub assigned_to_id: Option<u128>,
    pub status: TaskStatus,
    pub deadline: Option<i64>,
    pub jira_ticket_id: Option<Seq<char>>,
}

impl View for Task {
    type V = TaskView;

    open spec fn view(&self) -> TaskView {
        TaskView {
            id: self.id,
            title: self.title@,
            project_id: self.project_id,
            assigned_to_id: self.assigned_to_id,
            status: self.status,
            deadline: self.deadline,
            jira_ticket_id: text_of(self.jira_ticket_id),
        }
    }
}

impl Clone for Task {
    fn clone(&self) -> (copy: Self)
        ensures
            copy == *self,
    {
        Task {
            id: self.id,
            title: self.title.clone(),
            project_id: self.project_id,
            assigned_to_id: self.assigned_to_id,
            status: self.status,
            deadline: self.deadline,
            jira_ticket_id: copy_text(&self.jira_ticket_id),
        }
    }
}

impl Identified for Task {
    open spec fn ident(&self) -> u128 {
        self.id
    }

    fn key(&self) -> (k: u128) {
        self.id
    }
}

impl TaskView {
    /// The task that the store makes of a title: not started, assigned to
    /// nobody, with no deadline and no ticket.
    pub open spec fn created(id: u128, title: Seq<char>, project_id: u128) -> TaskView {
        TaskView {
            id,
            title,
            project_id,
            assigned_to_id: None,
            status: TaskStatus::NotStarted,
            deadline: None,
            jira_ticket_id: None,
        }
    }

    /// The task with another status.
    pub open spec fn with_status(self, status: TaskStatus) -> TaskView {
        TaskView { status, ..self }
    }

    /// The task with a ticket.
    pub open spec fn with_ticket(self, ticket: Seq<char>) -> TaskView {
        TaskView { jira_ticket_id: Some(ticket), ..self }
    }
}

impl Task {
    pub fn id(&self) -> (text: String)
        ensures
            text@ == hyphenated(self.id),
            parsed_uuid(text@) == Some(self.id),
    {
        uuid_to_text(self.id)
    }

    pub fn title(&self) -> (title: &str)
        ensures
            title@ == self.title@,
    {
        self.title.as_str()
    }

    pub fn project_id(&self) -> (text: String)
        ensures
            text@ == hyphenated(self.project_id),
            parsed_uuid(text@) == Some(self.project_id),
    {
        uuid_to_text(self.project_id)
    }

    pub fn assigned_to_id(&self) -> (text: Option<String>)
        ensures
            text_of(text) == reference_text(self.assigned_to_id),
    {
        match self.assigned_to_id {
            Some(id) => Some(uuid_to_text(id)),
            None => None,
        }
    }

    pub fn status(&self) -> (status: TaskStatus)
        ensures
            status == self.status,
    {
        self.status
    }

    pub fn deadline(&self) -> (deadline: Option<i64>)
        ensures
            deadline == self.deadline,
    {
        self.deadline
    }

    pub fn jira_ticket_id(&self) -> (ticket: Option<&str>)
        ensures
            str_of(ticket) == text_of(self.jira_ticket_id),
    {
        borrow_text(&self.jira_ticket_id)
    }

    /// The roles that users hold for the task, in the order in which the
    /// users got their first role for it.
    pub fn raci_assignments(&self, store: &Store) -> (assignments: Vec<RaciAssignment>)
        ensures
            assignments@ == store@.assignments_of(self.id),
    {
        store.assignments_of(self.id)
    }
}

} // verus!
