//! A verified session manager for operating-system pseudo-terminals.
//!
//! The registry spawns shell processes attached to PTY pairs, accepts
//! writes and resize requests addressed by session identifier, and tears
//! sessions down cleanly; a per-session reader loop turns the PTY's output
//! into ordered notifications for the consuming application layer.
//!
//! The OS itself is reached only through the trusted boundary in
//! [`pty_os`]; everything the registry and the reader decide about
//! sessions, identifiers, notifications and errors is stated in contracts
//! and proved.
pub mod errors;
pub mod options;
pub mod pty_os;
pub mod reader;
pub mod registry;
