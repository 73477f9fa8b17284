//! Interaction core of a 2D pattern-drafting editor.
//!
//! Raw pointer gestures on a zoomable, pannable plot canvas are turned into
//! selection, editing and live-preview decisions on a pattern document.  The
//! crate covers the coordinate bridge between screen pixels and document
//! coordinates, the click/drag gesture classification, the hit-test resolver
//! over pattern geometry, the dispatch decisions of the active drawing tool,
//! and the live-preview shapes, all with verified contracts.  The rendering
//! framework that owns the canvas, the tools' own editing algorithms and the
//! error sink stay outside; they exchange plain values with this crate.

pub mod geometry;
pub mod helpers;
pub mod pattern;
pub mod tool;
pub mod transform;
