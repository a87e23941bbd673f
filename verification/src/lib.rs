//! Text-to-geometry pipeline: glyph outlines are collected as integer path
//! events with per-point glyph provenance, curves are flattened within a
//! tolerance, and the result is read out either as tagged polylines or as
//! fill-mesh rows over a tessellator's index buffer.
pub mod builder;
pub mod flatten;
pub mod font;
pub mod geom;
pub mod into_fill;
pub mod into_path;
