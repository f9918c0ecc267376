//! Verified core of a silent Windows session helper: it runs the user's
//! `.bat` scripts at login and on resume, keeps a dated log, installs itself
//! as a per-user autostart entry, and decides how its small
//! window answers the session and power messages of the system.
//!
//! The Win32 calls, the file system and the process environment stay with the
//! program around this library; everything that is decided or computed on
//! plain values stands here with its contract.
use vstd::prelude::*;

pub mod digits;
pub mod wide;
pub mod clock;
pub mod paths;
pub mod window;
pub mod logging;
pub mod script;
pub mod install;
pub mod program;

verus! {
} // verus!
