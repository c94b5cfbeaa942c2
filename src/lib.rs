//! Styling and configuration for rendering diagnostics to a terminal: the
//! glyph presets, the rendering configuration, the palette that maps each
//! severity and label role to a style, and the writer that applies those
//! styles to a color-capable sink.
pub mod chars;
pub mod config;
pub mod diagnostic;
pub mod style;
pub mod styles;
pub mod writer;
