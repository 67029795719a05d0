//! Decoders for a family of fixed-layout binary tile-asset formats and the
//! query chain that resolves a megatile coordinate into pixel colors and
//! terrain flags.
//!
//! Each format is decoded from a raw byte buffer into an immutable table;
//! the chain composes bounded lookups across the tables. Every decoder
//! enforces a strict whole-buffer-consumed contract.

pub mod bytes;
pub mod chain;
pub mod cv5;
pub mod error;
pub mod flingy;
pub mod megatile;
pub mod vf4;
pub mod vr4;
pub mod vx4;
pub mod wpe;
