//! Core logic of a desktop backend whose single job is to stream
//! high-resolution timestamps to a user interface: a one-shot activation
//! latch guarding the emission task, the conversion of wall-clock readings
//! to nanoseconds since the Unix epoch, and a model of the emission loop
//! itself. The host framework (window plumbing, the pub/sub transport, the
//! async runtime) lives outside this crate and only hands plain values in
//! and out.

pub mod clock;
pub mod latch;
pub mod stream;
