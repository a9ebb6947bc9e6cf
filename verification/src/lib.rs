//! Portfolio content behind a query root.
//!
//! The content of one owner (introductions, personal story, projects, skills,
//! social links, manifesto, current work, blog posts) lies in a document
//! store, one collection for each kind. This library holds what is decided on
//! the way from a query to its answer: which collection to read and through
//! which filter, what to make of every answer of the store, how a stored
//! document becomes a typed record, and how a failure is told. Reaching the
//! store and serving the queries is left to the program around it.

pub mod blog;
pub mod config;
pub mod content;
pub mod convert;
pub mod document;
pub mod error;
pub mod fetch;
pub mod filter;
pub mod query;
pub mod records;

pub use crate::query::{Context, Operation, Query};
