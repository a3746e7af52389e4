//! The command side of a tiling window manager's reactor.
//!
//! A command handler reads the reactor, updates the part of it that it owns,
//! and appends to `Reactor::effects` what is to happen outside: calls of the
//! layout engine, messages to other actors, requests to the window server.
//! Every handler states the exact list that it appends.

pub mod behaviour;
pub mod command;
pub mod effects;
pub mod geometry;
pub mod laws;
pub mod plan;
pub mod reactor;
pub mod screens;
pub mod windows;
