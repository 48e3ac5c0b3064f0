//! Desktop-shell startup logic: the window registry, the platform-gated
//! styling of the main window (transparent background plus a vibrancy
//! effect), and the startup state machine that aborts on any failure.
//!
//! The host runtime (window creation, the event loop, the native compositor
//! calls) is an unverified collaborator; this crate holds the decisions and
//! the window-state bookkeeping, stated over a mathematical model.

pub mod color;
pub mod laws;
pub mod platform;
pub mod registry;
pub mod startup;
