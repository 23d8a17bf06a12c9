//! Verified core of a drop-in replacement for a vendor upscaling library's
//! runtime entry points.
//!
//! The library owns the protocol and dispatch logic: walking the
//! self-describing descriptor chains that callers assemble, translating the
//! abstract resource-state bitmask into native state transitions with correct
//! barrier placement, the quality-mode and jitter query arithmetic, the
//! context lifecycle, and the state machine that selects a dispatch variant
//! (copy passthrough, shader resample, or diagnostic grid). Every function
//! here works on plain values; the surrounding unverified layer converts the
//! wire structures at the boundary and replays the returned command plans
//! against the native graphics API.
//!
//! Native handles (devices, resources, command recorders) appear throughout
//! as `u64` values that the library never dereferences: zero stands for a
//! null handle, and everything else is an opaque token borrowed from the
//! caller for the duration of one call.
#![allow(non_camel_case_types)]

pub mod api;
pub mod context;
pub mod desc;
pub mod dispatch;
pub mod pipeline;
pub mod quality;
pub mod query;
pub mod state;
pub mod types;
pub mod upscaler_type;
