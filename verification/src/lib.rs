//! A frame streaming pipeline: loader lanes partition a frame sequence
//! among themselves, prefetch decoded frames into bounded queues, and a
//! pacing scheduler drains them in strict sequence order at a fixed
//! cadence, deferring on underrun instead of failing.

pub mod filename;
pub mod frame;
pub mod lane;
pub mod partition;
pub mod pipeline;
pub mod scheduler;
