//! Text-alignment helpers for an immediate-mode drawing handle: centered and
//! right-aligned text placement, and a width/height measurement pair.
//!
//! The anchor arithmetic (where the top-left corner of the text ends up for a
//! given anchor convention) is ordinary integer geometry and is fully
//! specified in [`geometry`]; the measurement pair is specified in
//! [`measure`]. Measuring and drawing themselves belong to the rendering
//! backend that hosts these helpers, which hands the measured width in and
//! takes the computed anchor back.

pub mod geometry;
pub mod measure;
