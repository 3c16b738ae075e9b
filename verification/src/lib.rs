//! A live traffic-accounting core: classify captured frames by remote
//! endpoint, direction, protocol and port, accumulate byte counts into
//! fixed-duration windows, and render the aggregates as metric lines.

pub mod collector;
pub mod decode;
pub mod emit;
pub mod frame;
pub mod resolver;
pub mod stats;
pub mod text;
pub mod window;
