//! Foreground-activity tracking: rule matching, session accounting and the
//! text forms in which sessions are reported.

pub mod classify;
pub mod config;
pub mod emit;
pub mod observation;
pub mod pattern;
pub mod rule;
pub mod run;
pub mod tracker;
pub mod wide;
