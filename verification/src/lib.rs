//! Core of a micro-benchmark that compares element-wise addition of two flat
//! buffers of single-precision values, one value at a time against four at a
//! time.
//!
//! The proofs reason about integers, so a buffer element is the IEEE-754
//! binary32 bit pattern of its value, a `u32`. The conversions between the
//! scalar and the lane-packed form, the shape of the kernels, the input
//! pattern and the timing protocol are proved here. The additions themselves
//! are handed in by the caller as functions on bit patterns, and every
//! contract speaks of them through what those functions ensure.
pub mod buffer;
pub mod config;
pub mod decimal;
pub mod driver;
pub mod error;
pub mod kernels;
pub mod lanes;
pub mod pattern;
pub mod report;

pub use buffer::KernelType;
pub use config::{AccelMode, BmarkConfig};
pub use driver::{Driver, Phase};
pub use error::BenchError;
pub use kernels::{sum_f32x4, sum_serial};
pub use lanes::{f32x4_to_vec, vec_to_f32x4};
pub use pattern::{build_vec, index_to_f32};
