//! Diagnostic core for inspecting raw camera-sensor image files.
//!
//! The crate selects exactly one extraction mode per invocation, normalizes
//! decoder-provided pixel buffers into canonical integer sample buffers, and
//! encodes those buffers into portable bitmap byte streams with an exact,
//! verified byte layout.  Decoding of raw formats, metadata parsing and color
//! rendering are the job of an external decoding engine; this crate states and
//! checks the logic around it.

pub mod dispatch;
pub mod encode;
pub mod engine;
pub mod error;
pub mod hexline;
pub mod mode;
pub mod parse;
pub mod pixel;
