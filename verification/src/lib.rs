//! Core of a session-lock client for a compositor-driven display protocol.
//!
//! The crate holds the decisions of the client: the lock lifecycle
//! ([`session`]), the double-buffered pixel pools ([`buffer`]), the outputs
//! and the negotiation of their size ([`monitor`]), the globals to bind
//! ([`registry`]) and the session that ties them together, with one handler
//! for each kind of event and the policy of an event-loop turn
//! ([`locker`]). Beside it stand the login form ([`tui`]), its animated
//! background ([`fire`]), its drawing on a character grid ([`form`],
//! [`grid`]) and the rasterizer ([`render`]).
//!
//! The logic is verified with Verus. Protocol traffic and operating-system
//! resources live with the caller, which performs the requests that the
//! handlers hand back. What the terminal and protocol libraries do is taken
//! on trust, in the few functions that say so.

pub mod buffer;
pub mod fire;
pub mod form;
pub mod grid;
pub mod locker;
pub mod monitor;
pub mod registry;
pub mod render;
pub mod session;
pub mod tui;
