//! A step of a workflow template: it becomes one task when the template is
//! applied.

use crate::ident::{hyphenated, parsed_uuid, uuid_to_text};
use crate::models::{reference_text, Identified};
use crate::text::{borrow_text, copy_text, str_of, text_of};
use vstd::prelude::*;

verus! {

/// A workflow step.
#[derive(Debug, PartialEq, Eq)]
pub struct WorkflowStep {
    pub id: u128,
    pub template_id: u128,
    pub step_name: String,
    /// A sort key: neither unique nor contiguous within a template.
    pub step_order: i32,
    /// A suggested role, as free text.
    pub role: Option<String>,
    /// Another step of the same template; recorded, not enforced.
    pub depends_on_step_id: Option<u128>,
}

/// A workflow step, as a mathematical value.
pub struct WorkflowStepView {
    pub id: u128,
    pub template_id: u128,
    pub step_name: Seq<char>,
    pub step_order: i32,
    pub role: Option<Seq<char>>,
    pub depends_on_step_id: Option<u128>,
}

impl View for WorkflowStep {
    type V = WorkflowStepView;

    open spec fn view(&self) -> WorkflowStepView {
        WorkflowStepView {
            id: self.id,
            template_id: self.template_id,
            step_name: self.step_name@,
            step_order: self.step_order,
            role: text_of(self.role),
            depends_on_step_id: self.depends_on_step_id,
        }
    }
}

impl Clone for WorkflowStep {
    fn clone(&self) -> (copy: Self)
        ensures
            copy == *self,
    {
        WorkflowStep {
            id: self.id,
            template_id: self.template_id,
            step_name: self.step_name.clone(),
            step_order: self.step_order,
            role: copy_text(&self.role),
            depends_on_step_id: self.depends_on_step_id,
        }
    }
}

impl Identified for WorkflowStep {
    open spec fn ident(&self) -> u128 {
        self.id
    }

    fn key(&self) -> (k: u128) {
        self.id
    }
}

impl WorkflowStepView {
    /// The step that the store makes of a name, an order and a suggested
    /// role: it depends on no other step.
    pub open spec fn created(
        id: u128,
        template_id: u128,
        step_name: Seq<char>,
        step_order: i32,
        role: Option<Seq<char>>,
    ) -> WorkflowStepView {
        WorkflowStepView { id, template_id, step_name, step_order, role, depends_on_step_id: None }
    }
}

impl WorkflowStep {
    pub fn id(&self) -> (text: String)
        ensures
            text@ == hyphenated(self.id),
            parsed_uuid(text@) == Some(self.id),
    {
        uuid_to_text(self.id)
    }

    pub fn step_name(&self) -> (name: &str)
        ensures
            name@ == self.step_name@,
    {
        self.step_name.as_str()
    }

    pub fn step_order(&self) -> (order: i32)
        ensures
            order == self.step_order,
    {
        self.step_order
    }

    pub fn role(&self) -> (role: Option<&str>)
        ensures
            str_of(role) == text_of(self.role),
    {
        borrow_text(&self.role)
    }

    pub fn depends_on_step_id(&self) -> (text: Option<String>)
        ensures
            text_of(text) == reference_text(self.depends_on_step_id),
    {
        match self.depends_on_step_id {
            Some(id) => Some(uuid_to_text(id)),
            None => None,
        }
    }
}

} // verus!
