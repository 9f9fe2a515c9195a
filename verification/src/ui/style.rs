//! Colours and the looks of text.

use vstd::prelude::*;

verus! {

/// A colour of the terminal.
#[derive(Clone, Copy, Debug, PartialEq, Eq, Structural)]
pub enum Color {
    Reset,
    Green,
    Yellow,
    Magenta,
    DarkGray,
    Indexed(u8),
    Rgb(u8, u8, u8),
}

/// How a piece of text looks.
#[derive(Clone, Copy, Debug, PartialEq, Eq, Structural)]
pub struct TextStyle {
    pub fg: Option<Color>,
    pub bg: Option<Color>,
    pub bold: bool,
    pub italic: bool,
    pub underlined: bool,
    pub dim: bool,
}

/// The colours that text is shown in.
#[derive(Clone, Copy, Debug, PartialEq, Eq, Structural)]
pub struct Palette {
    pub is_dark: bool,
    pub fg_primary: Color,
    pub fg_secondary: Color,
    pub chrome_muted_fg: Color,
    pub accent: Color,
    pub border: Color,
    pub chrome_bg: Color,
    pub hover_bg: Color,
    pub selection_bg: Color,
    pub search_match: Color,
}

/// A piece of text and its looks.
#[derive(Debug, PartialEq, Eq)]
pub struct StyledText {
    pub text: String,
    pub style: TextStyle,
}

impl TextStyle {
    /// Text as the terminal shows it by itself.
    #[verifier::allow_in_spec]
    pub fn plain() -> TextStyle
        returns
            (TextStyle {
                fg: None,
                bg: None,
                bold: false,
                italic: false,
                underlined: false,
                dim: false,
            }),
    {
        TextStyle { fg: None, bg: None, bold: false, italic: false, underlined: false, dim: false }
    }

    #[verifier::allow_in_spec]
    pub fn with_fg(self, fg: Color) -> TextStyle
        returns
            (TextStyle {
                fg: Some(fg),
                bg: self.bg,
                bold: self.bold,
                italic: self.italic,
                underlined: self.underlined,
                dim: self.dim,
            }),
    {
        TextStyle {
            fg: Some(fg),
            bg: self.bg,
            bold: self.bold,
            italic: self.italic,
            underlined: self.underlined,
            dim: self.dim,
        }
    }

    #[verifier::allow_in_spec]
    pub fn with_bg(self, bg: Color) -> TextStyle
        returns
            (TextStyle {
                fg: self.fg,
                bg: Some(bg),
                bold: self.bold,
                italic: self.italic,
                underlined: self.underlined,
                dim: self.dim,
            }),
    {
        TextStyle {
            fg: self.fg,
            bg: Some(bg),
            bold: self.bold,
            italic: self.italic,
            underlined: self.underlined,
            dim: self.dim,
        }
    }

    #[verifier::allow_in_spec]
    pub fn with_bold(self) -> TextStyle
        returns
            (TextStyle {
                fg: self.fg,
                bg: self.bg,
                bold: true,
                italic: self.italic,
                underlined: self.underlined,
                dim: self.dim,
            }),
    {
        TextStyle {
            fg: self.fg,
            bg: self.bg,
            bold: true,
            italic: self.italic,
            underlined: self.underlined,
            dim: self.dim,
        }
    }

    #[verifier::allow_in_spec]
    pub fn with_italic(self) -> TextStyle
        returns
            (TextStyle {
                fg: self.fg,
                bg: self.bg,
                bold: self.bold,
                italic: true,
                underlined: self.underlined,
                dim: self.dim,
            }),
    {
        TextStyle {
            fg: self.fg,
            bg: self.bg,
            bold: self.bold,
            italic: true,
            underlined: self.underlined,
            dim: self.dim,
        }
    }

    #[verifier::allow_in_spec]
    pub fn with_underline(self) -> TextStyle
        returns
            (TextStyle {
                fg: self.fg,
                bg: self.bg,
                bold: self.bold,
                italic: self.italic,
                underlined: true,
                dim: self.dim,
            }),
    {
        TextStyle {
            fg: self.fg,
            bg: self.bg,
            bold: self.bold,
            italic: self.italic,
            underlined: true,
            dim: self.dim,
        }
    }

    #[verifier::allow_in_spec]
    pub fn with_dim(self) -> TextStyle
        returns
            (TextStyle {
                fg: self.fg,
                bg: self.bg,
                bold: self.bold,
                italic: self.italic,
                underlined: self.underlined,
                dim: true,
            }),
    {
        TextStyle {
            fg: self.fg,
            bg: self.bg,
            bold: self.bold,
            italic: self.italic,
            underlined: self.underlined,
            dim: true,
        }
    }
}

/// Whether text is shown with these words and looks.
pub open spec fn shown_as(spans: Seq<StyledText>, wanted: Seq<(Seq<char>, TextStyle)>) -> bool {
    &&& spans.len() == wanted.len()
    &&& forall|i: int|
        0 <= i < spans.len() ==> (#[trigger] spans[i]).text@ == wanted[i].0 && spans[i].style
            == wanted[i].1
}

/// Each change of looks changes one thing and leaves the others, and plain text has no looks of
/// its own.
pub proof fn looks_change_one_thing(style: TextStyle, color: Color)
    ensures
        TextStyle::plain().fg is None && TextStyle::plain().bg is None,
        !TextStyle::plain().bold && !TextStyle::plain().italic && !TextStyle::plain().underlined
            && !TextStyle::plain().dim,
        style.with_fg(color) == (TextStyle { fg: Some(color), ..style }),
        style.with_bg(color) == (TextStyle { bg: Some(color), ..style }),
        style.with_bold() == (TextStyle { bold: true, ..style }),
        style.with_italic() == (TextStyle { italic: true, ..style }),
        style.with_underline() == (TextStyle { underlined: true, ..style }),
        style.with_dim() == (TextStyle { dim: true, ..style }),
{
}

} // verus!
