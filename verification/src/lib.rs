//! Records and retrieves work-time entries of a Jira-compatible issue tracker.
//!
//! The library holds every decision of the client: calendar dates and the
//! texts the tracker expects for them, the requests of the two operations,
//! the classification of the tracker's answers, the selection of a configured
//! context and the lines shown to the user. Sending a request, reading the
//! configuration and prompting are left to the program around it.

pub mod text;
pub mod date;
pub mod api;
pub mod client;
pub mod config;
pub mod commands;
