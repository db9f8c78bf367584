//! Synchronises the events of a calendar feed into tasks of a remote task
//! tracker, keeping one mapping per calendar event so that a second run
//! updates the tasks of the first instead of creating them again.
//!
//! The crate holds the decisions: which raw feed events become events to
//! sync, what is sent to the tracker for an event, and in which order the
//! mapping store and the tracker are consulted. Whoever drives a
//! [`reconcile::Reconciler`] performs the actions it asks for (database
//! queries, HTTP requests, waiting for the rate limiter) and hands the
//! answers back.

pub mod clickup;
pub mod config;
pub mod docsoc_ical;
pub mod error;
pub mod instant;
pub mod models;
pub mod reconcile;
pub mod world;
