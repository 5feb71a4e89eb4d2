//! A minimal retained-mode rendering harness.
//!
//! The library is the verified core of an application shell: a registry of
//! renderable components keyed by unique identifiers, a builder for those
//! components, a texture cache that loads each image path at most once, and
//! a per-frame operation that turns pending input events into a frame plan
//! (which handlers to invoke, which textures to load, whether to render or
//! quit). The windowing backend itself — window creation, canvas painting,
//! event polling, texture decoding — is a capability the surrounding program
//! drives with the plans this library produces.

pub mod app;
pub mod board;
pub mod color;
pub mod events;
pub mod frame;
pub mod laws;
pub mod render_components;
