//! A capability server library: a fixed catalog of callable operations,
//! URI-addressed content resources, and parameterized prompt templates,
//! backed by an immutable set of text documents.

pub mod encode;
pub mod meta;
pub mod server;
pub mod prompts;
pub mod registry;
pub mod schema;
pub mod search;
pub mod store;
pub mod text;
