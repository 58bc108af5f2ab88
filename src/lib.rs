//! Single-instance enforcement with live hand-off for a desktop launcher.
//!
//! The first process to take an exclusive advisory lock on a per-user lock
//! file becomes the primary instance: it listens on a local socket and owns
//! the window. Every later process becomes a secondary instance: it connects
//! to that socket, which asks the primary to reveal its window, and exits.
//!
//! The operating-system work (files, locks, sockets, threads, the GUI) is done
//! by the application around this crate. This crate holds the decisions: the
//! paths, the startup protocol as a state machine, the listener, and the
//! window-visibility model, each with its contract.
pub mod election;
pub mod launch;
pub mod listener;
pub mod paths;
pub mod window;
