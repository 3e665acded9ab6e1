//! Runtime supervisor for interactive child processes.
//!
//! Each *instance* of the managed application may run several *components*
//! (a main engine, a messaging gateway, a protocol adapter); the binding of
//! one component of one instance to a spawned process is a *session*.  This
//! crate holds the verified core of the supervisor: the session registry and
//! its state machine, the bounded scrollback buffer, the command resolver
//! that computes launch plans, and the data model shared with the
//! surrounding application.
//!
//! The supervisor's OS work — opening pseudo-terminals, spawning children,
//! forwarding bytes — is performed by the caller, which owns the process
//! handles and drives the registry through the operations defined here.

pub mod bridge;
pub mod components;
pub mod errors;
pub mod laws;
pub mod manager;
pub mod models;
pub mod paths;
pub mod resolver;
pub mod session;
pub mod strutil;
pub mod versions;
