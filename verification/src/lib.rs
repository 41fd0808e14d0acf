//! Test-fixture helper for running a standalone Oxia key-value store in a
//! container. The library side is pure data: an image descriptor with
//! builder-style mutators, the launch command and readiness condition the
//! fixture runner consumes, the service address a client connects to, and the
//! round-trip consistency check the smoke test asserts.

pub mod address;
pub mod round_trip;
pub mod standalone;
