//! Verified core of a PTY bridge.
//!
//! The library models the controller that owns a pseudo-terminal master
//! descriptor and relays bytes between the local standard streams and the
//! PTY: the decision logic of the relay loop, the bounded inbound chunk
//! queue with its back-pressure, and the lifecycle of the master handle.
//! The surrounding process plumbing (forking the shell, the async runtime,
//! the actual descriptor I/O) lives outside the library and consults these
//! functions for every decision.

pub mod shell;
pub mod relay;
pub mod bridge;
