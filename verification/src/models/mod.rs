//! Page records and the persistence contract.

pub mod contract;
pub mod laws;
pub mod lemmas;
pub mod page;
pub mod table;
