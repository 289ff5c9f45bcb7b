//! The task resource: its record, the statements on its table, and the
//! handlers of its five operations.

pub mod controller;
pub mod laws;
pub mod model;
pub mod store;
pub mod table;
