//! Node runtime for a small peer-to-peer chat overlay: role descriptors and
//! listen endpoints, the host-facing command bridge, and the event-loop
//! decisions that turn network events and host commands into actions.

pub mod config;
pub mod outside;
pub mod bridge;
pub mod event_loop;
pub mod assembly;
pub mod health;
pub mod laws;
