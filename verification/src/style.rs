use vstd::prelude::*;

verus! {

/// The opaque style tokens that the formatter weaves into every line.
///
/// Each field is a string constant supplied by the caller (an ANSI escape, or
/// an empty string for plain output). The library never interprets them: they
/// only appear verbatim in the formatted output.
pub struct Style {
    /// Accent colour for the bullet glyph, the user name and the host name.
    pub primary: String,
    /// Accent colour for values, the `@` sign and the separator dashes.
    pub secondary: String,
    /// Bold marker.
    pub bold: String,
    /// Style reset marker.
    pub reset: String,
}

} // verus!
