//! A small task service, as a library of decisions.
//!
//! The service keeps one kind of record, the task, in a persistent table, and
//! offers five operations on it over HTTP. Everything that such a service
//! decides is here: which requests are refused before the table is touched,
//! which statement is put to the table and with which values, what each answer
//! of the table means, and which status and body go back to the caller. Talking
//! to the network and to the database is left to the program around the
//! library, which performs each statement that a handler asks for and hands the
//! answer back.

pub mod database;
pub mod errors;
pub mod response;
pub mod routes;
pub mod tasks;
