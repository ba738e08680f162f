//! Manufacturer-specific dialects of the display control protocol.
pub mod iiyama;
