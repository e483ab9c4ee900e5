//! The data that the remote operations produce and consume.

pub mod sample;
