//! Adds a white border to a photograph and, on request, writes a line of
//! camera metadata into the bottom strip of that border.
//!
//! The crate holds the computing part of that work: border geometry, canvas
//! compositing, metadata extraction and formatting, text placement, output
//! naming and batch accounting. Reading and writing files is left to the caller.

pub mod batch;
pub mod border;
pub mod canvas;
pub mod error;
pub mod metadata;
pub mod output;
pub mod overlay;
pub mod processor;
pub mod text;
