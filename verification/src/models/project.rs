//! A project: the owner of tasks.

use crate::ident::{hyphenated, parsed_uuid, uuid_to_text};
use crate::models::Identified;
use crate::text::{borrow_text, copy_text, str_of, text_of};
use crate::models::task::Task;
use crate::store::state::views;
use crate::store::Store;
use vstd::prelude::*;

verus! {

/// A project. Its tasks refer to it; it does not hold them.
#[derive(Debug, PartialEq, Eq)]
pub struct Project {
    pub id: u128,
    pub name: String,
    pub description: Option<String>,
    /// Microseconds since the Unix epoch, in UTC.
    pub deadline: Option<i64>,
    /// The user who owns the project.
    pub owner_id: u128,
}

/// A project, as a mathematical value.
pub struct ProjectView {
    pub id: u128,
    pub name: Seq<char>,
    pub description: Option<Seq<char>>,
    pub deadline: Option<i64>,
    pub owner_id: u128,
}

impl View for Project {
    type V = ProjectView;

    open spec fn view(&self) -> ProjectView {
        ProjectView {
            id: self.id,
            name: self.name@,
            description: text_of(self.description),
            deadline: self.deadline,
            owner_id: self.owner_id,
        }
    }
}

impl Clone for Project {
    fn clone(&self) -> (copy: Self)
        ensures
            copy == *self,
    {
        Project {
            id: self.id,
            name: self.name.clone(),
            description: copy_text(&self.description),
            deadline: self.deadline,
            owner_id: self.owner_id,
        }
    }
}

impl Identified for Project {
    open spec fn ident(&self) -> u128 {
        self.id
    }

    fn key(&self) -> (k: u128) {
        self.id
    }
}

impl ProjectView {
    /// The project that the store makes of a name and a description: no
    /// deadline is set at creation.
    pub open spec fn created(
        id: u128,
        name: Seq<char>,
        description: Option<Seq<char>>,
        owner_id: u128,
    ) -> ProjectView {
        ProjectView { id, name, description, deadline: None, owner_id }
    }
}

impl Project {
    pub fn id(&self) -> (text: String)
        ensures
            text@ == hyphenated(self.id),
            parsed_uuid(text@) == Some(self.id),
    {
        uuid_to_text(self.id)
    }

    pub fn name(&self) -> (name: &str)
        ensures
            name@ == self.name@,
    {
        self.name.as_str()
    }

    pub fn description(&self) -> (description: Option<&str>)
        ensures
            str_of(description) == text_of(self.description),
    {
        borrow_text(&self.description)
    }

    pub fn deadline(&self) -> (deadline: Option<i64>)
        ensures
            deadline == self.deadline,
    {
        self.deadline
    }

    pub fn owner_id(&self) -> (text: String)
        ensures
            text@ == hyphenated(self.owner_id),
            parsed_uuid(text@) == Some(self.owner_id),
    {
        uuid_to_text(self.owner_id)
    }

    /// The tasks of this project, in the order in which they were written.
    pub fn tasks(&self, store: &Store) -> (tasks: Vec<Task>)
        ensures
            views(tasks@) == store@.tasks_of(self.id),
    {
        store.tasks_of(self.id)
    }
}

} // verus!
