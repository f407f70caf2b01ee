//! Calendar synchronization and selective sharing: the sharing rules, the
//! iCalendar reader and writer, and the decisions behind sync and write-back.

pub mod auth;
pub mod config;
pub mod digest;
pub mod error;
pub mod ics;
pub mod models;
pub mod routes;
pub mod sharing;
pub mod sync;
pub mod text;
pub mod vecs;
pub mod timefmt;
pub mod urls;
pub mod ids;
