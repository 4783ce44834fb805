//! A compact little-endian binary encoding of the configuration types.
pub mod bytes;
pub mod views;
pub mod serialize;
pub mod deserialize;
