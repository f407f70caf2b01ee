//! Inbound synchronization and write-back: the decisions behind fetching a
//! calendar, storing it, and reconciling a target calendar.

pub mod caldav;
pub mod caldav_source;
pub mod connector;
pub mod ics_url;
pub mod push;
pub mod scheduler;
pub mod store;
