//! Marks the result types of GraphQL resolvers with nullability wrappers.
pub mod types;
pub mod copy;
pub mod wrap;
pub mod field;
pub mod attrs;
pub mod method;
pub mod block;
pub mod laws;
pub mod wrappers;
