//! Renders source code into syntax-highlighted raster images.
//!
//! The library resolves a request's options against their defaults, looks up the
//! language and the theme, splits and highlights the code line by line, and
//! encodes the finished image as PNG or as raw RGBA8 bytes.
mod encode;
mod error;
mod highlight;
mod options;
mod wrapper;

pub use encode::{encode_png, encode_rgba8, RgbaBytes};
pub use error::RenderError;
pub use highlight::{
    highlight, highlight_lines, load_theme, select_sources, FoundSyntax, Highlighted, LineHighlighter,
    ThemeSource,
};
pub use options::{
    default_image, default_shadow, resolve_image, resolve_shadow, Background, ColorRgba,
    ImageOptions, ImageSettings, ShadowOptions, ShadowSettings,
};
pub use wrapper::Wrapper;
