//! The picker for hosts on screen: an input, the list of hosts, and a line of help.

use crate::engine::InputMode;
use crate::geometry::Rect;
use crate::layout::{larger, monus, smaller};
use crate::ui::layout::{center_rect, centred_on};
use crate::ui::slices::{is_boundary, lemma_whole, slice, slice_bytes};
use crate::ui::style::{Palette, TextStyle};
use crate::ui::width::{bytes_in, lemma_bytes_are_utf8, text_columns, text_width};
use vstd::prelude::*;

verus! {

/// The size of the picker: as large as it likes to be, or as the screen allows with a
/// margin of two cells, but never below what it can be used in.
pub open spec fn picker_size(screen: Rect) -> (int, int) {
    (
        smaller(68, larger(monus(screen.width as int, 4), 20)),
        smaller(22, larger(monus(screen.height as int, 4), 8)),
    )
}

/// The picker on screen.
#[derive(Clone, Copy, Debug, PartialEq, Eq, Structural)]
pub struct HostsPickerPlan {
    pub area: Rect,
    /// The inside of the frame.
    pub inner: Rect,
    pub input_y: u16,
    pub separator_y: u16,
    pub list_y: u16,
    /// How many hosts there is room for.
    pub list_h: u16,
    pub footer_y: u16,
}

/// The picker on screen: the input in its first row, a line below it, the help in the
/// last row, and the list in between.
pub open spec fn picker_plan(screen: Rect) -> HostsPickerPlan {
    let size = picker_size(screen);
    let area = centred_on(screen, size.0 as u16, size.1 as u16);
    let inner = Rect {
        x: (area.x + 2) as u16,
        y: (area.y + 1) as u16,
        width: (area.width - 4) as u16,
        height: (area.height - 2) as u16,
    };
    HostsPickerPlan {
        area,
        inner,
        input_y: inner.y,
        separator_y: (inner.y + 1) as u16,
        list_y: (inner.y + 2) as u16,
        list_h: (inner.height - 3) as u16,
        footer_y: (inner.y + inner.height - 1) as u16,
    }
}

/// The picker on screen.
pub fn plan_hosts_picker(screen: Rect) -> (r: HostsPickerPlan)
    requires
        screen.x + larger(screen.width as int, 20) <= u16::MAX,
        screen.y + larger(screen.height as int, 8) <= u16::MAX,
    ensures
        r == picker_plan(screen),
{
    let w: u16 = screen.width.saturating_sub(4).max(20).min(68);
    let h: u16 = screen.height.saturating_sub(4).max(8).min(22);
    let area = center_rect(screen, w, h);
    let inner = Rect::new(area.x + 2, area.y + 1, area.width - 4, area.height - 2);
    HostsPickerPlan {
        area,
        inner,
        input_y: inner.y,
        separator_y: inner.y + 1,
        list_y: inner.y + 2,
        list_h: inner.height - 3,
        footer_y: inner.y + (inner.height - 1),
    }
}

/// The list lies between the line below the input and the help, and always has room for
/// a host.
pub proof fn hosts_have_room(screen: Rect)
    requires
        screen.x + larger(screen.width as int, 20) <= u16::MAX,
        screen.y + larger(screen.height as int, 8) <= u16::MAX,
    ensures
        ({
            let plan = picker_plan(screen);
            &&& plan.list_h >= 3
            &&& plan.input_y < plan.separator_y < plan.list_y
            &&& plan.list_y + plan.list_h == plan.footer_y
            &&& plan.inner.within(plan.area)
            &&& screen.width >= 24 && screen.height >= 12 ==> plan.area.within(screen)
        }),
{
}

/// The title of the picker.
pub fn title(mode: InputMode) -> (r: &'static str)
    ensures
        r@ == (match mode {
            InputMode::Search => " Connect to · filter "@,
            InputMode::Path => " Connect to · [user@]host[:path] "@,
        }),
{
    match mode {
        InputMode::Search => " Connect to · filter ",
        InputMode::Path => " Connect to · [user@]host[:path] ",
    }
}

/// What stands before the input.
pub open spec fn prompt_text(mode: InputMode) -> Seq<char> {
    match mode {
        InputMode::Search => "› "@,
        InputMode::Path => "➜ "@,
    }
}

/// What stands before the input.
pub fn prompt(mode: InputMode) -> (r: &'static str)
    ensures
        r@ == prompt_text(mode),
{
    match mode {
        InputMode::Search => "› ",
        InputMode::Path => "➜ ",
    }
}

/// The line of help.
pub fn footer(mode: InputMode) -> (r: &'static str)
    ensures
        r@ == (match mode {
            InputMode::Search => "  Enter connect · Ctrl+P path mode · Esc cancel"@,
            InputMode::Path => "  Enter connect · Esc back to filter"@,
        }),
{
    match mode {
        InputMode::Search => "  Enter connect · Ctrl+P path mode · Esc cancel",
        InputMode::Path => "  Enter connect · Esc back to filter",
    }
}

/// How far the caret is from the left of the picker: after the prompt and the text before
/// it, but never past the right border.
pub open spec fn caret_offset(prompt: int, before: int, width: int) -> int {
    prompt + smaller(before, monus(width, prompt + 1))
}

/// The column of the caret. Columns past the end of the terminal's reach are its end.
pub fn caret_x(inner: Rect, mode: InputMode, input: &str, cursor: usize) -> (r: u16)
    requires
        is_boundary(input@, smaller(cursor as int, bytes_in(input@))),
    ensures
        r == smaller(
            inner.x + caret_offset(
                smaller(text_columns(prompt_text(mode)) as int, u16::MAX as int),
                text_columns(
                    slice(input@, 0, smaller(cursor as int, bytes_in(input@))),
                ) as int,
                inner.width as int,
            ),
            u16::MAX as int,
        ),
{
    let len: usize = input.as_bytes().len();
    proof {
        lemma_bytes_are_utf8(input@);
        lemma_whole(input@);
    }
    let at: usize = cursor.min(len);
    let before = slice_bytes(input, 0, at);
    let before_w: usize = text_width(before.as_str());
    let prompt_w: usize = text_width(prompt(mode)).min(65535);
    let room: usize = (inner.width as usize).saturating_sub(prompt_w + 1);
    let x: usize = inner.x as usize + prompt_w + before_w.min(room);
    x.min(65535) as u16
}

/// The caret stays inside the picker wherever the prompt leaves it room.
pub proof fn carets_stay_inside(prompt: int, before: int, width: int)
    requires
        0 <= prompt < width,
        0 <= before,
    ensures
        prompt <= caret_offset(prompt, before, width) < width,
{
}

/// The looks of a host's two columns.
pub fn row_styles(selected: bool, recent: bool, palette: &Palette) -> (r: (TextStyle, TextStyle))
    ensures
        r.0 == (if selected {
            TextStyle::plain().with_fg(palette.chrome_bg).with_bg(palette.accent).with_bold()
        } else if recent {
            TextStyle::plain().with_fg(palette.accent)
        } else {
            TextStyle::plain().with_fg(palette.fg_primary)
        }),
        r.1 == (if selected {
            TextStyle::plain().with_fg(palette.chrome_bg).with_bg(palette.accent)
        } else {
            TextStyle::plain().with_fg(palette.chrome_muted_fg)
        }),
{
    if selected {
        let marked = TextStyle::plain().with_fg(palette.chrome_bg).with_bg(palette.accent);
        (marked.with_bold(), marked)
    } else {
        let left = if recent {
            palette.accent
        } else {
            palette.fg_primary
        };
        (TextStyle::plain().with_fg(left), TextStyle::plain().with_fg(palette.chrome_muted_fg))
    }
}

/// The row of the `index`-th host.
pub fn row_rect(plan: &HostsPickerPlan, index: usize) -> (r: Option<Rect>)
    requires
        plan.list_y + plan.list_h <= u16::MAX,
    ensures
        r == (if index < plan.list_h {
            Some(Rect::new(plan.inner.x, (plan.list_y + index) as u16, plan.inner.width, 1))
        } else {
            None
        }),
{
    if index < plan.list_h as usize {
        Some(Rect::new(plan.inner.x, plan.list_y + index as u16, plan.inner.width, 1))
    } else {
        None
    }
}

/// The picker leaves two cells free on every side of the screen, and grows to sixty-eight by
/// twenty-two cells and no further; below twenty by eight it does not shrink.
pub proof fn pickers_fit_the_screen(screen: Rect)
    ensures
        ({
            let (width, height) = picker_size(screen);
            &&& screen.width >= 72 ==> width == 68
            &&& 24 <= screen.width <= 72 ==> width == screen.width - 4
            &&& screen.width <= 24 ==> width == 20
            &&& screen.height >= 26 ==> height == 22
            &&& 12 <= screen.height <= 26 ==> height == screen.height - 4
            &&& screen.height <= 12 ==> height == 8
        }),
{
}

/// The caret stands right after what is before it, where there is room, and at the right end
/// otherwise.
pub proof fn carets_follow_the_text(prompt: int, before: int, width: int)
    requires
        0 <= prompt < width,
        0 <= before,
    ensures
        prompt + before < width ==> caret_offset(prompt, before, width) == prompt + before,
        prompt + before >= width ==> caret_offset(prompt, before, width) == width - 1,
{
}

/// The input comes first, a line below it, the list below that, and the help in the last row.
pub proof fn pickers_have_four_parts(screen: Rect)
    requires
        screen.x + larger(screen.width as int, 20) <= u16::MAX,
        screen.y + larger(screen.height as int, 8) <= u16::MAX,
    ensures
        ({
            let plan = picker_plan(screen);
            &&& plan.input_y == plan.area.y + 1
            &&& plan.separator_y == plan.input_y + 1
            &&& plan.list_y == plan.separator_y + 1
            &&& plan.footer_y == plan.area.y + plan.area.height - 2
            &&& plan.list_y + plan.list_h == plan.footer_y
            &&& plan.inner.x == plan.area.x + 2 && plan.inner.width == plan.area.width - 4
        }),
{
}

/// A search and a path are told apart by what stands before the input.
pub proof fn prompts_tell_the_modes_apart()
    ensures
        prompt_text(InputMode::Search) == "› "@,
        prompt_text(InputMode::Path) == "➜ "@,
{
}

} // verus!
