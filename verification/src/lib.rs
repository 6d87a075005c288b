//! A boundary layer for exposing a memory-managed core to a foreign caller:
//! plain values crossed by copy, owned and opaque heap handles, borrowed
//! buffer views, owned text buffers, an allocator bridge, and callbacks in
//! both directions.
//!
//! Every type that crosses the boundary is either a plain value (copied
//! bitwise), an owned handle (consumed by value by its paired release
//! operation, so a release can happen at most once), or a borrowed view
//! (valid only for the call that received it). The foreign-facing calling
//! convention itself lives outside this crate; this crate holds the data
//! model and the rules, each with its contract.

pub mod alloc_bridge;
pub mod buffer;
pub mod callback;
pub mod opaque;
pub mod point;
pub mod text;
