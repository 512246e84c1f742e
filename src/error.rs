use vstd::prelude::*;

verus! {

/// Why a render request failed. Any error ends the request: no partial image is
/// produced.
#[derive(Debug, Clone, Copy, PartialEq, Eq, Structural)]
pub enum RenderError {
    /// The language key names no syntax definition of the registry.
    UnknownLanguage,
    /// The theme name names no theme of the registry.
    UnknownTheme,
    /// The highlighting engine could not tokenize a line of the code.
    HighlightFailed,
    /// No font of the fallback list could be loaded.
    NoUsableFont,
    /// The bytes handed to theme loading do not hold a theme.
    InvalidThemeAsset,
    /// The image could not be serialized.
    EncodingError,
    /// The composited image is not an 8-bit RGBA buffer.
    UnsupportedImageMode,
}

} // verus!
