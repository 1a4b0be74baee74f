//! Readiness registration and caching for pollable handles.
//!
//! Edge events reported for a handle are kept in a per-direction cache until a
//! caller that saw the handle block clears them. The library is sequential and
//! does no I/O of its own: the caller delivers edges, invokes the wake handles
//! that come back, and forwards registration requests to its event source.

pub mod direction;
pub mod cache;
pub mod registration;
pub mod guard;
pub mod wrapper;
pub mod laws;
