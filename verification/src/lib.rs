//! Decoding of vector map tiles: packed geometry command streams and
//! interned feature attributes are turned into typed values.

pub mod zigzag;
pub mod command;
pub mod error;
pub mod geometry;
pub mod stream;
pub mod properties;
pub mod message;
pub mod tile;
pub mod encoding;
