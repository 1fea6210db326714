use vstd::prelude::*;

verus! {

/// Everything that can go wrong while reading a font.
///
/// Every parsing operation returns a `Result` carrying one of these; no
/// operation aborts the process on bad input.
#[derive(Clone, Copy, Debug, PartialEq, Eq, Structural)]
pub enum FontError {
    /// Fewer bytes remain than the field being read requires.
    TruncatedInput,
    /// A required tag (such as `maxp` or `glyf`) is absent from the directory.
    TableNotFound,
    /// A seek target lies beyond the end of the byte source.
    InvalidOffset,
    /// A composite glyph was asked for its simple-glyph data.
    UnsupportedGlyphFormat,
}

impl FontError {
    /// A short name for the error, for the surrounding program to display.
    pub fn describe(&self) -> (s: &'static str)
        ensures
            s@ == match self {
                FontError::TruncatedInput => "truncated input"@,
                FontError::TableNotFound => "table not found"@,
                FontError::InvalidOffset => "invalid offset"@,
                FontError::UnsupportedGlyphFormat => "unsupported glyph format"@,
            },
    {
        match self {
            FontError::TruncatedInput => "truncated input",
            FontError::TableNotFound => "table not found",
            FontError::InvalidOffset => "invalid offset",
            FontError::UnsupportedGlyphFormat => "unsupported glyph format",
        }
    }
}

} // verus!
