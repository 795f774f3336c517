//! Decides when a pull request's pipeline has just finished, and what to tell the author.

pub mod config;
pub mod laws;
pub mod merge;
pub mod notify;
pub mod pulls;
pub mod status;
pub mod text;
