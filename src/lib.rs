//! Inspection of cartridge ROM images: container detection, header
//! decoding and per-bank free-space analysis.

pub mod inspectors;
