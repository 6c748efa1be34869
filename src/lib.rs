//! Resolution of the container types that generated code uses for Protobuf
//! `map` and `bytes` fields.
pub mod collections;
pub mod laws;

pub use collections::{BytesType, MapType};
