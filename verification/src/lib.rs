//! Supervisor core of a desktop shell that depends on one auxiliary backend
//! process.
//!
//! The crate holds the decisions only: which executable belongs to which
//! platform, whether and when the backend is launched, what the slot that owns
//! the process handle does when the shell starts and when it shuts down, and
//! the little that the shell decides about its own window. All outside work
//! (asking the file system, launching and killing a process, locking, talking
//! to the window) is the host's: each decision hands back what to do next and
//! takes the host's answer as a plain value.
//!
//! The library is generic in the three kinds of value that only the host can
//! make: `R`, the resource root; `H`, the handle of a launched process; `E`,
//! the host's error. They are carried through and never looked into.

pub mod launch;
pub mod platform;
pub mod slot;
pub mod window;
