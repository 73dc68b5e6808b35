//! Early memory bring-up for a small kernel, verified with Verus.
//!
//! The crate decides *what* has to be mapped, in which order and with which
//! attributes, how the translation hardware is programmed, and how a task's
//! register file is laid out on its stack. Touching page-table memory and
//! system registers is left to the caller, which performs the actions that
//! the functions here hand out and reports back what happened.

pub mod arch;
pub mod config;
pub mod driver;
pub mod driver_manager;
pub mod mem;
pub mod platform;
pub mod util;
