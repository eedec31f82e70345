//! Server side of a browser-automation protocol.
//!
//! The [`handler::Handler`] owns the single automation session and the
//! configured timeouts, and decides what each protocol command does. It never
//! talks to the engine itself: every step returns an [`engine::Action`] (send a
//! request, pause, or answer the client), and the driver that owns the engine's
//! control channel performs it and hands the outcome back as an
//! [`engine::Event`].
pub mod error;
pub mod protocol;
pub mod engine;
pub mod poll;
pub mod script;
pub mod outside;
pub mod handler;
