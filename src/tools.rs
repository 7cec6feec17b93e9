//! Tools: their schemas, the registry that holds them, and how their descriptors are built.

pub mod schema;
pub mod registry;
pub mod error;
pub mod naming;
pub mod descriptor;
