//! Helpers for the time before the console works.

pub mod boot;
