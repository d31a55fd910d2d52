use vstd::prelude::*;

verus! {

/// The icons the shell can draw. Each stands for one glyph of the icon
/// font; only the back and refresh icons are on screen so far.
#[derive(Debug, Clone, Copy, PartialEq, Eq)]
pub enum Icon {
    Edit,
    Delete,
    Back,
    Refresh,
    Cancel,
}

impl Icon {
    /// The code point of each icon's glyph.
    pub open spec fn spec_codepoint(self) -> char {
        match self {
            Icon::Edit => '\u{F303}',
            Icon::Delete => '\u{F1F8}',
            Icon::Back => '\u{2190}',
            Icon::Refresh => '\u{27F3}',
            Icon::Cancel => '\u{1F5D9}',
        }
    }

    /// The character to hand the font renderer for this icon.
    pub fn codepoint(&self) -> (c: char)
        ensures
            c == self.spec_codepoint(),
    {
        match self {
            Icon::Edit => '\u{F303}',
            Icon::Delete => '\u{F1F8}',
            Icon::Back => '\u{2190}',
            Icon::Refresh => '\u{27F3}',
            Icon::Cancel => '\u{1F5D9}',
        }
    }
}

} // verus!
