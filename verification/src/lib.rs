//! Authentication guards, attendance-code verification and start-up checks
//! for a membership-management site.
//!
//! The library decides and computes; it does no input or output of its own.
//! Callers hand it what they read from the request, the clock and the
//! database, and carry out what it returns.

pub mod attend;
pub mod crypto;
pub mod guards;
pub mod handlers;
pub mod launch;
pub mod laws;
pub mod models;
pub mod text;
pub mod tier;
pub mod users;

pub use launch::{AdminCheck, DatabaseCreate};
