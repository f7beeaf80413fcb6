//! A decode-to-output audio streaming pipeline: an interleaving adapter, a
//! bounded single-producer/single-consumer ring buffer, a feeder that submits
//! decoded batches under backpressure, a real-time sink that fills device
//! buffers with silence on under-run, and the supervisor that sizes the ring
//! and decides what each decoder event leads to.

pub mod stream;
pub mod interleave;
pub mod ring;
pub mod sink;
pub mod feeder;
pub mod supervisor;
pub mod pipeline;
