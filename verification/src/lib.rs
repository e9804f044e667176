//! Synchronous boundary layer of a telemetry-streaming client.
//!
//! The crate manages opaque stream and writer handles over the
//! `nominal-streaming` engine: monotone handle allocation, handle
//! registries, a per-caller error slot, channel-descriptor parsing,
//! and typed batch push dispatch. Every fallible operation returns a
//! status code from [`codes`] and leaves a diagnostic in the caller's
//! [`errslot::ErrorSlot`].

pub mod api;
pub mod codes;
pub mod errslot;
pub mod laws;
pub mod numfmt;
pub mod registry;
pub mod tags;
