//! Shell-completion augmentation engine.
//!
//! Takes a statically generated tab-completion script for one shell and
//! rewrites it so that profile names are completed dynamically, by invoking
//! the host program at completion time. Also holds the health-check
//! bookkeeping that decides the doctor exit code.

pub mod augment;
pub mod completions;
pub mod doctor;
pub mod instructions;
pub mod patch;
pub mod shell;

pub use shell::ShellKind;
