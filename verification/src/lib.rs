//! Content pages: the records a page table holds, the persistence contract
//! that page-like records satisfy, and the lookup that a template directive
//! performs on a render context.

pub mod models;
pub mod helpers;
