//! Safe backup, restore and delete of one named file.
//!
//! The library holds every decision of the tool: which names are
//! acceptable, what a confirmation is, what is written to the audit log, and
//! the order in which the file system is touched. It never touches the file
//! system itself; a driver performs each [`session::Action`] and reports what
//! happened as an [`session::Event`].
#![allow(non_snake_case)]

pub mod command;
pub mod filename;
pub mod journal;
pub mod model;
pub mod session;
pub mod text;
