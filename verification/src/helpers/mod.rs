//! What a template directive reads, and how it reads it.

pub mod context;
pub mod json;
pub mod resolver;
