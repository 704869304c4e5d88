//! Codec for the binary song and instrument files of the M8 tracker.
//!
//! The on-disk format is a fixed-layout byte image: a two-byte version
//! header followed by fixed-size record slots padded with 0xFF. The
//! library decodes such images into structured values, encodes them
//! back, and rewrites cross references (instrument, table and EQ
//! numbers) when records are renumbered.

pub mod instrument;
pub mod instruments;
pub mod fx;
pub mod reader;
pub mod remapper;
pub mod song;
pub mod version;
