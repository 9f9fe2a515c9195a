//! The titles of panels.

use crate::ui::style::{Palette, TextStyle};
use vstd::prelude::*;

verus! {

/// The looks of a panel's title: the accent colour while the panel has the focus, and
/// bold in any case, so that the weight does not change when the focus moves.
#[verifier::allow_in_spec]
pub fn header_title_style(palette: &Palette, focused: bool) -> TextStyle
    returns
        TextStyle::plain().with_fg(
            if focused {
                palette.accent
            } else {
                palette.fg_secondary
            },
        ).with_bold(),
{
    let fg = if focused {
        palette.accent
    } else {
        palette.fg_secondary
    };
    TextStyle::plain().with_fg(fg).with_bold()
}

/// The focus changes the colour of a title and nothing else, in any palette that tells
/// the two colours apart.
pub proof fn focus_shows(palette: Palette)
    requires
        palette.accent != palette.fg_secondary,
    ensures
        header_title_style(&palette, true).fg != header_title_style(&palette, false).fg,
        header_title_style(&palette, true).bold && header_title_style(&palette, false).bold,
{
}

/// The title of the panel in focus has the accent's colour, and that of another panel the
/// second text colour. Both are bold and nothing else.
pub proof fn titles_show_the_focus(palette: Palette)
    ensures
        header_title_style(&palette, true).fg == Some(palette.accent),
        header_title_style(&palette, false).fg == Some(palette.fg_secondary),
        forall|focused: bool| #[trigger]
            header_title_style(&palette, focused) == (TextStyle {
                fg: header_title_style(&palette, focused).fg,
                bold: true,
                ..TextStyle::plain()
            }),
{
}

} // verus!
