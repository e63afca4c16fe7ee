//! A project-management engine: projects own tasks, tasks carry a status and
//! RACI role assignments, and workflow templates are instantiated into a
//! project's task list. Every operation works on a [`store::Store`], an
//! in-memory relational store whose key, reference and uniqueness rules are
//! part of its invariant.

pub mod ai;
pub mod error;
pub mod graphql;
pub mod ident;
pub mod instantiation;
pub mod models;
pub mod password;
pub mod store;
pub mod text;
pub mod workflow;
