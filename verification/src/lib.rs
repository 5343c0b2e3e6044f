//! Conversion between MessagePack and JSON.
//!
//! The library decides the direction of a conversion from flags and file
//! names, runs the conversion, frames the binary side as hexadecimal text
//! on request, and sorts every failure into a fixed set of categories with
//! their exit statuses.

pub mod cli;
pub mod error;
pub mod ftype;
pub mod hex_codec;
pub mod pretty;
pub mod runner;
pub mod transcode;

pub use crate::cli::Args;
pub use crate::cli::Direction;
pub use crate::cli::InputSource;
pub use crate::cli::OutputSink;
pub use crate::error::Error;
pub use crate::error::HexError;
pub use crate::ftype::FType;
pub use crate::pretty::write_pretty_hex;
pub use crate::runner::main_runner;
pub use crate::transcode::json_to_mp;
pub use crate::transcode::mp_to_json;
