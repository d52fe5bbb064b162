//! Decision logic for a small launcher/supervisor utility.
//!
//! The utility starts a GUI application, hides an unwanted console window
//! the application intermittently spawns, and keeps doing so until the
//! application's own windows disappear. Everything that can be decided
//! from plain values lives here, verified: title matching, the choice of
//! which window to hide, the liveness test over a window-title snapshot,
//! and the supervisor state machine. The binary around this library only
//! talks to the operating system (enumerate windows, hide one, spawn the
//! process, show a dialog) and feeds the results in as plain values.

pub mod launch;
pub mod scan;
pub mod supervisor;
pub mod text;
