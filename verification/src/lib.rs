//! A verified SVG-to-PNG export pipeline.
//!
//! One export request runs four stages in order: a font catalog is built,
//! the document text is parsed into a scene graph, integer raster dimensions
//! and a uniform scale transform are planned, and the scene is painted into a
//! freshly allocated pixel buffer which is then encoded as PNG bytes.
//! Any stage failure aborts the rest and is reported as one [`errors::ExportError`].
//!
//! Parsing and painting are done by the `usvg`, `resvg` and `tiny-skia` crates
//! behind trusted wrappers; the planning arithmetic, the stage sequencing and
//! the error discipline are verified. Writing the encoded bytes to disk is the
//! host's job and is not part of this library.

pub mod errors;
pub mod scale;
pub mod fonts;
pub mod scene;
pub mod raster;
pub mod encode;
pub mod pipeline;
