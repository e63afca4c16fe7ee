//! The boundary to the text-generation collaborator.

pub mod project_scoper;
