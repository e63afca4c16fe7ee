//! The operations that the engine offers to its callers.

pub mod schema;
