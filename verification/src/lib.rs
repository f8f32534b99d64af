//! Startup readiness coordination and a small persistence facade over an
//! embedded SQLite store.
//!
//! The readiness coordinator gates a one-time reveal of the main window on
//! two completion signals. The store facade holds the schema statements, the
//! encoding of a product into statement parameters and the all-or-nothing
//! decoding of stored rows.

pub mod readiness;
pub mod timestamp;
pub mod models;
pub mod errors;
pub mod codec;
pub mod migrations;
pub mod sqlite;
pub mod repositories;
pub mod services;
