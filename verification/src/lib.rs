//! Orchestration core for a two-phase GPU compute simulation.
//!
//! The library owns the logic that must be exactly right for the compute
//! shader and the application to agree: the byte layout of every GPU-visible
//! buffer, the serialization of per-frame simulation snapshots into those
//! buffers, the Loading/Init/Update state machine that gates pipeline
//! dispatch on compilation readiness, and the lazy, resize-aware assembly of
//! the bind group. The GPU itself (device, queue, shader compilation) sits
//! outside: callers hand in plain values (readiness polls, resource handles,
//! projected positions as IEEE-754 bit patterns) and carry the returned byte
//! payloads and dispatch commands to the graphics API.

pub mod bindgroup;
pub mod codec;
pub mod domain;
pub mod frame;
pub mod layout;
pub mod pipeline;
pub mod snapshot;
pub mod stage;
