//! Multi-chip dispatch and notification delivery for UWB ranging chips.
//!
//! The library keeps a registry of dispatchers, each mapping a fixed set of
//! chip ids to one protocol manager per chip, addressed by generational handles
//! so that a stale or destroyed handle is detected rather than followed. It
//! maps protocol errors onto the narrow status channel of the host runtime, and
//! turns typed notification events into host callback invocations.
pub mod callback;
pub mod context;
pub mod naming;
pub mod notification;
pub mod object_mapping;
pub mod registry;
pub mod response;
pub mod session;
pub mod status;
pub mod tlv;
