//! Terminal client library for a music streaming service.
//!
//! The heart of the crate is the local-player subsystem under [`player`]: a
//! command/event bridge between the UI thread and a background worker that
//! drives an external audio engine, together with the PKCE/OAuth bootstrap
//! logic the worker uses to obtain credentials.  The [`handlers`] modules hold
//! the keyboard-driven navigation logic of the UI.

pub mod app;
pub mod event;
pub mod handlers;
pub mod network;
pub mod player;
