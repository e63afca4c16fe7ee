//! The persisted shapes the engine works on.

pub mod growth_template;
pub mod project;
pub mod raci_assignment;
pub mod raci_role;
pub mod task;
pub mod task_status;
pub mod user;
pub mod workflow_step;
pub mod workflow_template;

use vstd::prelude::*;

verus! {

/// A row that is found by its identifier.
pub trait Identified {
    spec fn ident(&self) -> u128;

    fn key(&self) -> (k: u128)
        ensures
            k == self.ident(),
    ;
}

/// The identifier, written as text, of an optional reference.
pub open spec fn reference_text(reference: Option<u128>) -> Option<Seq<char>> {
    match reference {
        Some(id) => Some(crate::ident::hyphenated(id)),
        None => None,
    }
}

} // verus!
