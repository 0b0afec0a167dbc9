//! Whole-device integrity tester: the chunk pipeline that turns N seekable
//! keystream workers into one deterministic byte stream, and the decisions of
//! the write and verify loops around it.

pub mod bufcache;
pub mod disktest;
pub mod stream;
pub mod stream_aggregator;
