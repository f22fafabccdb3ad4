//! A font-rendering abstraction layer: a capability interface through which a
//! text-layout pipeline queries glyph identifiers, pixel-accurate metrics,
//! coverage bitmaps and kerning adjustments from an underlying font engine,
//! together with a table-backed reference backend and the scale / position /
//! bounding-box pipeline both share.
//!
//! Sizes and engine-native measures are carried as signed fixed-point numbers
//! (`fixed::Fixed`), so every computation on them is exact integer arithmetic.

pub mod fixed;
pub mod types;
pub mod pipeline;
pub mod provider;
pub mod table_font;
pub mod rusttype_backend;
