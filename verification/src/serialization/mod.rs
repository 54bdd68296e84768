//! The structured-clone envelopes, transfers and host-object records.

pub mod course;
pub mod deserialize;
pub mod envelope;
pub mod error;
pub mod host_object;
pub mod numbers;
pub mod options;
pub mod outcome;
pub mod receiving;
pub mod serialize;
pub mod tag;
pub mod trailer;
pub mod wire;
