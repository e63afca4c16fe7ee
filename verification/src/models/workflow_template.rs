//! A workflow template: a named, reusable list of steps.

use crate::ident::{hyphenated, parsed_uuid, uuid_to_text};
use crate::models::Identified;
use crate::text::{borrow_text, copy_text, str_of, text_of};
use crate::models::workflow_step::WorkflowStep;
use crate::store::state::views;
use crate::store::Store;
use vstd::prelude::*;

verus! {

/// A workflow template. Its steps refer to it; it does not hold them.
#[derive(Debug, PartialEq, Eq)]
pub struct WorkflowTemplate {
    pub id: u128,
    pub name: String,
    pub description: Option<String>,
    /// The user who wrote the template.
    pub created_by_id: u128,
}

/// A workflow template, as a mathematical value.
pub struct WorkflowTemplateView {
    pub id: u128,
    pub name: Seq<char>,
    pub description: Option<Seq<char>>,
    pub created_by_id: u128,
}

impl View for WorkflowTemplate {
    type V = WorkflowTemplateView;

    open spec fn view(&self) -> WorkflowTemplateView {
        WorkflowTemplateView {
            id: self.id,
            name: self.name@,
            description: text_of(self.description),
            created_by_id: self.created_by_id,
        }
    }
}

impl Clone for WorkflowTemplate {
    fn clone(&self) -> (copy: Self)
        ensures
            copy == *self,
    {
        WorkflowTemplate {
            id: self.id,
            name: self.name.clone(),
            description: copy_text(&self.description),
            created_by_id: self.created_by_id,
        }
    }
}

impl Identified for WorkflowTemplate {
    open spec fn ident(&self) -> u128 {
        self.id
    }

    fn key(&self) -> (k: u128) {
        self.id
    }
}

impl WorkflowTemplate {
    pub fn id(&self) -> (text: String)
        ensures
            text@ == hyphenated(self.id),
            parsed_uuid(text@) == Some(self.id),
    {
        uuid_to_text(self.id)
    }

    pub fn name(&self) -> (name: &str)
        ensures
            name@ == self.name@,
    {
        self.name.as_str()
    }

    pub fn description(&self) -> (description: Option<&str>)
        ensures
            str_of(description) == text_of(self.description),
    {
        borrow_text(&self.description)
    }

    /// The steps of this template, in step order.
    pub fn steps(&self, store: &Store) -> (steps: Vec<WorkflowStep>)
        ensures
            views(steps@) == store@.steps_of(self.id),
    {
        store.steps_of(self.id)
    }
}

} // verus!
