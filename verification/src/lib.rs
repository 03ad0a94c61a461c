//! # ZipHere
//!
//! Easy-to-use building blocks for compressing and decompressing files,
//! with a navigable view over an already-open archive.

pub mod _comde;
pub mod _error;
pub mod _formats;
mod _utils;
pub mod comde;
pub mod error;
pub mod formats;
pub mod mem_view;
pub mod utils;
pub mod view;

pub use formats::Configs;
pub use formats::Formats;
