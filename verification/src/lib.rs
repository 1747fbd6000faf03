//! Runtime coordination spine of a client/server device-control system.
//!
//! A server discovers physical devices, assigns each a 32-bit index that is
//! allocated monotonically and never reused, binds it to a protocol, and
//! multiplexes commands to it; a client mirrors the server's device roster
//! and fans device events out to per-device handles. The library verifies
//! the decision logic of that spine: the client-side event loop, the
//! server-side device manager with its concurrent-readable device registry,
//! and the hardware-event bridge that turns transport notifications into
//! typed endpoint events. The runtime around it (tasks, channels,
//! transports) drives these state machines step by step.

pub mod client;
pub mod comm_manager;
pub mod device_manager;
pub mod errors;
pub mod future;
pub mod hardware;
pub mod laws;
pub mod messages;
pub mod registry;
