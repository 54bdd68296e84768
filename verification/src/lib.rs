//! Structured cloning around V8: the envelopes, the transfer of objects and the
//! records of Web platform objects.
//!
//! V8 walks the object graph and owns the objects. What has to be decided around
//! it is decided here, on plain values: a decision that needs something of V8
//! asks for it and goes on with the reply.

pub mod big_endian;
pub mod serialization;
pub mod text;
pub mod value;
pub mod varint;
pub mod web;
pub mod web_serialize_deserialize;
pub mod webidl;
