//! Window-lifecycle management and resource monitoring for a desktop
//! overlay application.
//!
//! The library is the stateful core of the application: it tracks one
//! overlay window per physical display, remembers window positions per
//! monitor slot, plans window creation and teardown, and computes the
//! status reports of a process-memory watchdog.  All platform I/O (the
//! actual windowing subsystem, timers, process-memory sampling) stays
//! outside; the library works on plain values handed in by its caller.

pub mod display;
pub mod laws;
pub mod manager;
pub mod memory;
pub mod text;

use vstd::prelude::*;

verus! {

/// Width and height of a freshly created overlay window, in pixels.
pub const DEFAULT_WINDOW_SIZE: u32 = 400;

} // verus!
