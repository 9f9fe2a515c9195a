//! The expanded view of the places a symbol leads to: a header, the code around the
//! selected place, and the places by file.

use crate::geometry::Rect;
use crate::layout::{monus, smaller};
use crate::text::{align_right, concat, decimal, decimal_text, right_aligned};
use crate::ui::nav_candidates_popup::{
    inside, peek_area, peek_top, peeks_stay_inside, NavGroup, NavPopup, PeekAction, PeekZone, PREFERRED_HEIGHT,
    PREVIEW_PERCENT, TREE_PERCENT,
};
use crate::ui::nav_compact::RowPlace;
use crate::ui::snippets::{are_pieces, cut_end, exact_snippet_spans, marked_range, truncate_end};
use crate::ui::style::{shown_as, Color, Palette, StyledText, TextStyle};
use crate::ui::width::{text_columns, text_width};
use vstd::prelude::*;

verus! {

/// `ratatui::layout::Layout::split`, with two columns that take `left` and `right` percent
/// of the area. Both lie inside the area and are as high as it is. Where the percentages
/// make up the whole, the columns share the area without a gap, and the first gets its
/// percentage of the width, rounded to the nearest column. Which way half a column is
/// rounded, and how the width is shared out where the percentages do not make up the
/// whole, is not stated.
#[verifier::external_body]
pub(crate) fn split_columns(area: Rect, left: u16, right: u16) -> (r: (Rect, Rect))
    requires
        area.x + area.width <= u16::MAX,
        area.y + area.height <= u16::MAX,
    ensures
        r.0.within(area) && r.0.y == area.y && r.0.height == area.height,
        r.1.within(area) && r.1.y == area.y && r.1.height == area.height,
        left + right == 100 ==> r.0.x == area.x && r.1.x == r.0.x + r.0.width && r.1.x + r.1.width
            == area.x + area.width,
        left + right == 100 ==> -50 <= 100 * r.0.width - left * area.width <= 50,
{
    let parts = ratatui::layout::Layout::default()
        .direction(ratatui::layout::Direction::Horizontal)
        .constraints([
            ratatui::layout::Constraint::Percentage(left),
            ratatui::layout::Constraint::Percentage(right),
        ])
        .split(ratatui::layout::Rect::new(area.x, area.y, area.width, area.height));
    (
        Rect::new(parts[0].x, parts[0].y, parts[0].width, parts[0].height),
        Rect::new(parts[1].x, parts[1].y, parts[1].width, parts[1].height),
    )
}

/// `ratatui::layout::Layout::split`, with a part of `first` rows above one of at least
/// `least`. Where there is room for both, the first gets its rows and the second all the
/// others.
#[verifier::external_body]
pub(crate) fn split_rows(area: Rect, first: u16, least: u16) -> (r: (Rect, Rect))
    requires
        area.x + area.width <= u16::MAX,
        area.y + area.height <= u16::MAX,
        first + least <= area.height,
        least <= i16::MAX,
    ensures
        r.0 == Rect::new(area.x, area.y, area.width, first),
        r.1 == Rect::new(
            area.x,
            (area.y + first) as u16,
            area.width,
            (area.height - first) as u16,
        ),
{
    let parts = ratatui::layout::Layout::default()
        .direction(ratatui::layout::Direction::Vertical)
        .constraints([
            ratatui::layout::Constraint::Length(first),
            ratatui::layout::Constraint::Min(least),
        ])
        .split(ratatui::layout::Rect::new(area.x, area.y, area.width, area.height));
    (
        Rect::new(parts[0].x, parts[0].y, parts[0].width, parts[0].height),
        Rect::new(parts[1].x, parts[1].y, parts[1].width, parts[1].height),
    )
}

/// The parts of the expanded view.
#[derive(Clone, Copy, Debug, PartialEq, Eq, Structural)]
pub struct ExpandedAreas {
    pub area: Rect,
    pub header: Rect,
    pub preview: Rect,
    pub tree: Rect,
}

/// The expanded view in its host. An empty host is its own view.
pub open spec fn view_in(host: Rect, anchor_row: int) -> Rect {
    if host.height == 0 {
        host
    } else {
        let y = peek_top(host, anchor_row);
        Rect {
            x: host.x,
            y: y as u16,
            width: host.width,
            height: smaller(
                smaller(host.height as int, PREFERRED_HEIGHT as int),
                monus(smaller(host.y + host.height, u16::MAX as int), y),
            ) as u16,
        }
    }
}

/// The header of a view, its first row inside of the frame.
pub open spec fn header_of(area: Rect) -> Rect {
    Rect { x: inside(area).x, y: inside(area).y, width: inside(area).width, height: 1 }
}

/// What a view has below its header.
pub open spec fn body_of(area: Rect) -> Rect {
    Rect {
        x: inside(area).x,
        y: (inside(area).y + 1) as u16,
        width: inside(area).width,
        height: (inside(area).height - 1) as u16,
    }
}

/// The left column of a view's body, with the code around the selected place: its
/// percentage of the width, rounded to the nearest column. The percentage leaves no halves.
pub open spec fn preview_of(area: Rect) -> Rect {
    let body = body_of(area);
    Rect { width: ((PREVIEW_PERCENT * body.width + 50) / 100) as u16, ..body }
}

/// The right column of a view's body, with the places by file: what the left one leaves.
pub open spec fn tree_of(area: Rect) -> Rect {
    let body = body_of(area);
    let preview = preview_of(area);
    Rect {
        x: (body.x + preview.width) as u16,
        width: (body.width - preview.width) as u16,
        ..body
    }
}

/// The parts of the expanded view; none where there is nothing to show, or not enough
/// room. The header takes the first row, and the two columns below it all the others.
pub fn expanded_areas(popup: &NavPopup, host: Rect, anchor_row: u16) -> (r: Option<ExpandedAreas>)
    requires
        host.x + host.width <= u16::MAX,
        host.y + host.height <= u16::MAX,
    ensures
        r is Some <==> popup.candidates@.len() > 0 && view_in(host, anchor_row as int).width >= 12
            && view_in(host, anchor_row as int).height >= 4,
        r matches Some(areas) ==> {
            &&& areas.area == view_in(host, anchor_row as int)
            &&& areas.header == header_of(areas.area)
            &&& areas.preview == preview_of(areas.area)
            &&& areas.tree == tree_of(areas.area)
        },
{
    if popup.candidates.len() == 0 {
        return None;
    }
    let area = peek_area(host, anchor_row);
    assert(area == view_in(host, anchor_row as int));
    if area.width < 12 || area.height < 4 {
        return None;
    }
    let (header, body) = split_rows(inside(area), 1, 1);
    let (preview, tree) = split_columns(body, PREVIEW_PERCENT, TREE_PERCENT);
    Some(ExpandedAreas { area, header, preview, tree })
}

/// The two columns of a view share its body: side by side, with nothing between them and
/// nothing left over.
pub proof fn columns_share_the_body(area: Rect)
    requires
        area.x + area.width <= u16::MAX,
        area.y + area.height <= u16::MAX,
        area.width >= 2,
    ensures
        preview_of(area).x == body_of(area).x,
        tree_of(area).x == preview_of(area).x + preview_of(area).width,
        tree_of(area).x + tree_of(area).width == body_of(area).x + body_of(area).width,
        preview_of(area).y == body_of(area).y && preview_of(area).height == body_of(area).height,
        tree_of(area).y == body_of(area).y && tree_of(area).height == body_of(area).height,
{
}

pub open spec fn strong(palette: Palette) -> TextStyle {
    TextStyle::plain().with_fg(palette.fg_primary).with_bg(palette.chrome_bg).with_bold()
}

pub open spec fn faint(palette: Palette) -> TextStyle {
    TextStyle::plain().with_fg(palette.fg_secondary).with_bg(palette.chrome_bg)
}

/// The name of a directory after the name of a file in it.
pub open spec fn parent_text(parent: Option<String>, palette: Palette) -> Seq<
    (Seq<char>, TextStyle),
> {
    match parent {
        Some(parent) => seq![("  "@ + parent@, faint(palette))],
        None => Seq::empty(),
    }
}

/// The words of the header: the selected place's file and directory, and what is looked
/// for.
pub open spec fn header_text(
    popup: NavPopup,
    file: Seq<char>,
    parent: Option<String>,
    kind: Seq<char>,
    palette: Palette,
) -> Seq<(Seq<char>, TextStyle)> {
    seq![(" "@ + file, strong(palette))] + parent_text(parent, palette) + seq![
        (
            "  › "@ + popup.symbol@ + " — "@ + kind + " ("@ + decimal(
                popup.candidates@.len(),
            ) + ")"@,
            faint(palette),
        ),
    ]
}

fn strong_style(palette: &Palette) -> (r: TextStyle)
    ensures
        r == strong(*palette),
{
    TextStyle::plain().with_fg(palette.fg_primary).with_bg(palette.chrome_bg).with_bold()
}

fn faint_style(palette: &Palette) -> (r: TextStyle)
    ensures
        r == faint(*palette),
{
    TextStyle::plain().with_fg(palette.fg_secondary).with_bg(palette.chrome_bg)
}

/// What the header calls the selected place, given what the platform takes for the last
/// part of its path and for the directory before it: a path without a last part is shown
/// whole, and a directory without a name is not shown.
pub fn header_names(path: &str, file_name: Option<String>, parent: Option<String>) -> (r: (
    String,
    Option<String>,
))
    ensures
        r.0@ == (match file_name {
            Some(name) => name@,
            None => path@,
        }),
        r.1 == (match parent {
            Some(dir) => if dir@.len() == 0 {
                None
            } else {
                parent
            },
            None => None,
        }),
{
    let file = match file_name {
        Some(name) => name,
        None => path.to_string(),
    };
    let dir = match parent {
        Some(dir) => {
            if dir.is_empty() {
                None
            } else {
                Some(dir)
            }
        },
        None => None,
    };
    (file, dir)
}

/// The words of the header.
pub fn header_spans(
    popup: &NavPopup,
    file: &str,
    parent: &Option<String>,
    kind: &str,
    palette: &Palette,
) -> (r: Vec<StyledText>)
    ensures
        shown_as(r@, header_text(*popup, file@, *parent, kind@, *palette)),
{
    let mut spans: Vec<StyledText> = Vec::new();
    spans.push(StyledText { text: concat(" ", file), style: strong_style(palette) });
    match parent {
        Some(parent) => {
            spans.push(
                StyledText { text: concat("  ", parent.as_str()), style: faint_style(palette) },
            );
        },
        None => {},
    }
    let mut meta = concat("  › ", popup.symbol.as_str());
    meta.push_str(" — ");
    meta.push_str(kind);
    meta.push_str(" (");
    meta.push_str(decimal_text(popup.candidates.len()).as_str());
    meta.push_str(")");
    spans.push(StyledText { text: meta, style: faint_style(palette) });
    spans
}

/// The button that closes the view, at the right end of the header.
pub fn close_zone(header: Rect) -> (r: PeekZone)
    requires
        header.x + header.width <= u16::MAX,
    ensures
        r == (PeekZone {
            rect: Rect::new(
                (header.x + monus(header.width as int, 2)) as u16,
                header.y,
                smaller(header.width as int, 2) as u16,
                1,
            ),
            action: PeekAction::Close,
        }),
{
    PeekZone {
        rect: Rect::new(
            header.x + header.width.saturating_sub(2),
            header.y,
            header.width.min(2),
            1,
        ),
        action: PeekAction::Close,
    }
}

/// A row of the list of places by file.
#[derive(Clone, Copy, Debug, PartialEq, Eq, Structural)]
pub enum TreeRow {
    Group(usize),
    Candidate(usize),
}

/// The rows of a group: its file, and its places where it is open.
pub open spec fn rows_of_group(group: NavGroup, index: int) -> Seq<TreeRow> {
    let places = if group.expanded {
        Seq::new(
            monus(group.end as int, group.first as int) as nat,
            |i: int| TreeRow::Candidate((group.first + i) as usize),
        )
    } else {
        Seq::empty()
    };
    seq![TreeRow::Group(index as usize)] + places
}

/// The rows of the first `n` groups.
pub open spec fn tree_rows_of(groups: Seq<NavGroup>, n: int) -> Seq<TreeRow>
    decreases n,
{
    if n <= 0 {
        Seq::empty()
    } else {
        tree_rows_of(groups, n - 1) + rows_of_group(groups[n - 1], n - 1)
    }
}

/// All rows of the list.
pub fn tree_rows(popup: &NavPopup) -> (r: Vec<TreeRow>)
    ensures
        r@ == tree_rows_of(popup.groups@, popup.groups@.len() as int),
{
    let mut out: Vec<TreeRow> = Vec::new();
    let mut g: usize = 0;
    while g < popup.groups.len()
        invariant
            g <= popup.groups@.len(),
            out@ == tree_rows_of(popup.groups@, g as int),
        decreases popup.groups@.len() - g,
    {
        let group = &popup.groups[g];
        let ghost before = out@;
        out.push(TreeRow::Group(g));
        if group.expanded {
            let mut k: usize = group.first;
            let ghost places = Seq::new(
                monus(group.end as int, group.first as int) as nat,
                |i: int| TreeRow::Candidate((group.first + i) as usize),
            );
            assert(out@ =~= before + (seq![TreeRow::Group(g)] + places.take(0)));
            while k < group.end
                invariant
                    group.first <= k,
                    k <= group.end || k == group.first,
                    places == Seq::new(
                        monus(group.end as int, group.first as int) as nat,
                        |i: int| TreeRow::Candidate((group.first + i) as usize),
                    ),
                    out@ == before + (seq![TreeRow::Group(g)] + places.take(k - group.first)),
                decreases group.end - k,
            {
                out.push(TreeRow::Candidate(k));
                proof {
                    let i = k - group.first;
                    assert(places.take(i + 1) =~= places.take(i).push(TreeRow::Candidate(k)));
                    assert(out@ =~= before + (seq![TreeRow::Group(g)] + places.take(i + 1)));
                }
                k += 1;
            }
            assert(places.take(k - group.first) =~= places);
        } else {
            assert(out@ =~= before + rows_of_group(*group, g as int));
        }
        g += 1;
    }
    out
}

/// What a row of the list shows.
#[derive(Debug)]
pub enum PeekContent {
    Group { index: usize, spans: Vec<StyledText> },
    Candidate { index: usize, line: StyledText, snippet: Vec<StyledText>, background: Color },
}

/// A row of the list on screen.
#[derive(Debug)]
pub struct PeekRow {
    pub y: u16,
    pub content: PeekContent,
}

impl PeekRow {
    /// What a click on the row asks for: a file is opened or closed, a place is gone to.
    pub fn action(&self) -> (r: PeekAction)
        ensures
            r == (match self.content {
                PeekContent::Group { index, .. } => PeekAction::ToggleGroup(index),
                PeekContent::Candidate { index, .. } => PeekAction::Select(index),
            }),
    {
        match &self.content {
            PeekContent::Group { index, .. } => PeekAction::ToggleGroup(*index),
            PeekContent::Candidate { index, .. } => PeekAction::Select(*index),
        }
    }
}

/// The words of a file's row.
pub open spec fn group_text(group: NavGroup, palette: Palette) -> Seq<(Seq<char>, TextStyle)> {
    let marker = if group.expanded {
        "⌄"@
    } else {
        "›"@
    };
    seq![(" "@ + marker + " "@ + group.file@, strong(palette))] + parent_text(
        group.parent,
        palette,
    ) + seq![
        (
            "  "@ + decimal(monus(group.end as int, group.first as int) as nat),
            faint(palette),
        ),
    ]
}

/// The words of a file's row.
pub fn group_row(group: &NavGroup, palette: &Palette) -> (r: Vec<StyledText>)
    ensures
        shown_as(r@, group_text(*group, *palette)),
{
    let mut spans: Vec<StyledText> = Vec::new();
    let mut name = concat(
        " ",
        if group.expanded {
            "⌄"
        } else {
            "›"
        },
    );
    name.push_str(" ");
    name.push_str(group.file.as_str());
    spans.push(StyledText { text: name, style: strong_style(palette) });
    match &group.parent {
        Some(parent) => {
            spans.push(
                StyledText { text: concat("  ", parent.as_str()), style: faint_style(palette) },
            );
        },
        None => {},
    }
    let count: usize = group.end.saturating_sub(group.first);
    spans.push(
        StyledText {
            text: concat("  ", decimal_text(count).as_str()),
            style: faint_style(palette),
        },
    );
    spans
}

/// The line number of a place as the list shows it.
pub open spec fn line_text(line: int) -> Seq<char> {
    "  "@ + right_aligned((line + 1) as nat, 4) + "  "@
}

/// Whether this is the row of the `index`-th place.
pub open spec fn is_candidate_row(
    row: PeekContent,
    popup: NavPopup,
    index: int,
    y: int,
    place: RowPlace,
    palette: Palette,
) -> bool {
    let candidate = popup.candidates@[index];
    let colour = if index == popup.selected {
        palette.selection_bg
    } else if place.is_hovered(y) {
        palette.hover_bg
    } else {
        palette.chrome_bg
    };
    let number = line_text(candidate.line as int);
    let room = monus(place.width as int, text_columns(number) as int);
    match row {
        PeekContent::Group { .. } => false,
        PeekContent::Candidate { index: at, line, snippet, background } => {
            &&& at == index
            &&& background == colour
            &&& line.text@ == number
            &&& line.style == TextStyle::plain().with_fg(palette.fg_secondary).with_bg(colour)
            &&& are_pieces(
                snippet@,
                marked_range(
                    cut_end(candidate.snippet@, room),
                    candidate.match_start as int,
                    candidate.match_end as int,
                ),
                TextStyle::plain().with_fg(palette.fg_primary).with_bg(colour),
                TextStyle::plain().with_fg(palette.accent).with_bg(
                    palette.search_match,
                ).with_bold(),
            )
        },
    }
}

/// The row of the `index`-th place.
pub fn candidate_row(
    popup: &NavPopup,
    index: usize,
    y: u16,
    place: &RowPlace,
    palette: &Palette,
) -> (r: PeekContent)
    requires
        popup.wf(),
        index < popup.candidates@.len(),
    ensures
        is_candidate_row(r, *popup, index as int, y as int, *place, *palette),
{
    let candidate = &popup.candidates[index];
    let background = if index == popup.selected {
        palette.selection_bg
    } else if place.hovers(y) {
        palette.hover_bg
    } else {
        palette.chrome_bg
    };
    let mut number = concat("  ", align_right(candidate.line + 1, 4).as_str());
    number.push_str("  ");
    let room: usize = (place.width as usize).saturating_sub(text_width(number.as_str()));
    let snippet = truncate_end(candidate.snippet.as_str(), room);
    PeekContent::Candidate {
        index,
        line: StyledText {
            text: number,
            style: TextStyle::plain().with_fg(palette.fg_secondary).with_bg(background),
        },
        snippet: exact_snippet_spans(
            snippet.as_str(),
            candidate.match_start,
            candidate.match_end,
            TextStyle::plain().with_fg(palette.fg_primary).with_bg(background),
            TextStyle::plain().with_fg(palette.accent).with_bg(palette.search_match).with_bold(),
        ),
        background,
    }
}

/// The rows from `start` on that are on screen, `n` of them at most, with their places on
/// screen below `y`. Places that the popup does not have are left blank.
pub open spec fn placed(
    rows: Seq<TreeRow>,
    candidates: int,
    start: int,
    n: int,
    y: int,
) -> Seq<(int, TreeRow)>
    decreases n,
{
    if n <= 0 {
        Seq::empty()
    } else {
        let before = placed(rows, candidates, start, n - 1, y);
        let at = start + n - 1;
        if at >= rows.len() || (rows[at] matches TreeRow::Candidate(i) && i >= candidates) {
            before
        } else {
            before.push((y + n - 1, rows[at]))
        }
    }
}

/// Whether a row on screen shows this row of the list.
pub open spec fn is_peek_row(
    row: PeekRow,
    wanted: (int, TreeRow),
    popup: NavPopup,
    place: RowPlace,
    palette: Palette,
) -> bool {
    &&& row.y == wanted.0
    &&& match wanted.1 {
        TreeRow::Group(g) => row.content matches PeekContent::Group { index, spans } && index == g
            && shown_as(spans@, group_text(popup.groups@[g as int], palette)),
        TreeRow::Candidate(i) => is_candidate_row(
            row.content,
            popup,
            i as int,
            wanted.0,
            place,
            palette,
        ),
    }
}

/// Whether these are the rows on screen.
pub open spec fn are_peek_rows(
    rows: Seq<PeekRow>,
    wanted: Seq<(int, TreeRow)>,
    popup: NavPopup,
    place: RowPlace,
    palette: Palette,
) -> bool {
    &&& rows.len() == wanted.len()
    &&& forall|i: int|
        0 <= i < rows.len() ==> is_peek_row(#[trigger] rows[i], wanted[i], popup, place, palette)
}

/// The first row of the list on screen.
pub open spec fn tree_top(popup: NavPopup, visible: int) -> int {
    smaller(
        popup.scroll as int,
        monus(tree_rows_of(popup.groups@, popup.groups@.len() as int).len() as int, visible),
    )
}

proof fn lemma_groups_exist(groups: Seq<NavGroup>, n: int)
    requires
        0 <= n <= groups.len() <= usize::MAX,
    ensures
        forall|i: int|
            0 <= i < tree_rows_of(groups, n).len() ==> (#[trigger] tree_rows_of(groups, n)[i]
                matches TreeRow::Group(g) ==> g < n),
    decreases n,
{
    if n > 0 {
        lemma_groups_exist(groups, n - 1);
        let before = tree_rows_of(groups, n - 1);
        let all = tree_rows_of(groups, n);
        assert forall|i: int| 0 <= i < all.len() implies (#[trigger] all[i]
            matches TreeRow::Group(g) ==> g < n) by {
            if i < before.len() {
                assert(all[i] == before[i]);
            } else {
                assert(all[i] == rows_of_group(groups[n - 1], n - 1)[i - before.len()]);
            }
        }
    }
}

/// The rows of the list on screen. `visible` is how many of them the engine shows in the
/// height of `inner`.
pub fn plan_tree(
    popup: &NavPopup,
    inner: Rect,
    visible: usize,
    hover: Option<(u16, u16)>,
    palette: &Palette,
) -> (r: Vec<PeekRow>)
    requires
        popup.wf(),
        inner.y + inner.height <= u16::MAX,
        visible <= inner.height,
    ensures
        are_peek_rows(
            r@,
            placed(
                tree_rows_of(popup.groups@, popup.groups@.len() as int),
                popup.candidates@.len() as int,
                tree_top(*popup, visible as int),
                visible as int,
                inner.y as int,
            ),
            *popup,
            RowPlace { x: inner.x, width: inner.width, hover },
            *palette,
        ),
        popup.scroll + visible <= tree_rows_of(popup.groups@, popup.groups@.len() as int).len()
            ==> forall|j: int|
            0 <= j < r@.len() ==> inner.y <= (#[trigger] r@[j]).y && content_is(
                r@[j].content,
                tree_rows_of(popup.groups@, popup.groups@.len() as int)[popup.scroll + (r@[j].y
                    - inner.y)],
            ),
{
    let rows = tree_rows(popup);
    let len: usize = rows.len();
    let start: usize = popup.scroll.min(len.saturating_sub(visible));
    let place = RowPlace { x: inner.x, width: inner.width, hover };
    let group_count: usize = popup.groups.len();
    let candidate_count: usize = popup.candidates.len();
    proof {
        lemma_groups_exist(popup.groups@, popup.groups@.len() as int);
    }
    let mut out: Vec<PeekRow> = Vec::new();
    let mut n: usize = 0;
    while n < visible
        invariant
            n <= visible <= inner.height,
            inner.y + inner.height <= u16::MAX,
            popup.wf(),
            len == rows@.len(),
            start <= len,
            start + visible <= len || start == 0,
            rows@ == tree_rows_of(popup.groups@, popup.groups@.len() as int),
            candidate_count == popup.candidates@.len(),
            group_count == popup.groups@.len(),
            forall|i: int|
                0 <= i < rows@.len() ==> (#[trigger] rows@[i] matches TreeRow::Group(g) ==> g
                    < group_count),
            place == (RowPlace { x: inner.x, width: inner.width, hover }),
            are_peek_rows(
                out@,
                placed(
                    rows@,
                    candidate_count as int,
                    start as int,
                    n as int,
                    inner.y as int,
                ),
                *popup,
                place,
                *palette,
            ),
        decreases visible - n,
    {
        let y: u16 = inner.y + n as u16;
        if n < len - start {
            match rows[start + n] {
                TreeRow::Group(g) => {
                    let spans = group_row(&popup.groups[g], palette);
                    out.push(PeekRow { y, content: PeekContent::Group { index: g, spans } });
                },
                TreeRow::Candidate(i) => {
                    if i < candidate_count {
                        let content = candidate_row(popup, i, y, &place, palette);
                        out.push(PeekRow { y, content });
                    }
                },
            }
        }
        n += 1;
    }
    proof {
        rows_on_screen_follow_the_scroll(*popup, inner, visible as int, place, *palette, out@);
    }
    out
}

/// Where list row `at` stands among the rows on screen.
proof fn lemma_placed(rows: Seq<TreeRow>, candidates: int, start: int, n: int, y: int)
    requires
        0 <= start,
        0 <= n,
    ensures
        placed(rows, candidates, start, n, y).len() <= n,
        forall|j: int|
            0 <= j < placed(rows, candidates, start, n, y).len() ==> {
                let shown = #[trigger] placed(rows, candidates, start, n, y)[j];
                &&& y <= shown.0 < y + n
                &&& start + (shown.0 - y) < rows.len()
                &&& shown.1 == rows[start + (shown.0 - y)]
            },
        forall|j: int, k: int|
            0 <= j < k < placed(rows, candidates, start, n, y).len() ==> (#[trigger] placed(
                rows,
                candidates,
                start,
                n,
                y,
            )[j]).0 < (#[trigger] placed(rows, candidates, start, n, y)[k]).0,
        forall|i: int|
            0 <= i < n && start + i < rows.len() && !(#[trigger] rows[start + i]
                matches TreeRow::Candidate(c) && c >= candidates) ==> placed(
                rows,
                candidates,
                start,
                n,
                y,
            ).contains((y + i, rows[start + i])),
    decreases n,
{
    if n > 0 {
        lemma_placed(rows, candidates, start, n - 1, y);
        let before = placed(rows, candidates, start, n - 1, y);
        let all = placed(rows, candidates, start, n, y);
        assert forall|i: int|
            0 <= i < n && start + i < rows.len() && !(#[trigger] rows[start + i]
                matches TreeRow::Candidate(c) && c >= candidates) implies all.contains(
            (y + i, rows[start + i]),
        ) by {
            if i < n - 1 {
                assert(before.contains((y + i, rows[start + i])));
                let j = choose|j: int| 0 <= j < before.len() && before[j] == (y + i, rows[start + i]);
                assert(all[j] == (y + i, rows[start + i]));
            } else {
                assert(all[before.len() as int] == (y + i, rows[start + i]));
            }
        }
    }
}

/// What a row on screen is of: a file of the list, or a place of it.
pub open spec fn content_is(content: PeekContent, row: TreeRow) -> bool {
    match row {
        TreeRow::Group(g) => content matches PeekContent::Group { index, .. } && index == g,
        TreeRow::Candidate(i) => content matches PeekContent::Candidate { index, .. } && index == i,
    }
}

/// The rows on screen follow how far the list is scrolled. As long as the list goes on for
/// a screenful, list row `popup.scroll + i` stands on screen row `i`; past that the last
/// list row stands on the last of the visible rows; and a list that is shorter than the
/// screen begins at its top. A place that the popup does not have leaves its row blank,
/// and no row on screen shows anything else.
pub proof fn rows_on_screen_follow_the_scroll(
    popup: NavPopup,
    inner: Rect,
    visible: int,
    place: RowPlace,
    palette: Palette,
    shown: Seq<PeekRow>,
)
    requires
        0 <= visible,
        are_peek_rows(
            shown,
            placed(
                tree_rows_of(popup.groups@, popup.groups@.len() as int),
                popup.candidates@.len() as int,
                tree_top(popup, visible),
                visible,
                inner.y as int,
            ),
            popup,
            place,
            palette,
        ),
    ensures
        ({
            let rows = tree_rows_of(popup.groups@, popup.groups@.len() as int);
            let first = if popup.scroll + visible <= rows.len() {
                popup.scroll as int
            } else if visible <= rows.len() {
                rows.len() - visible
            } else {
                0
            };
            &&& forall|i: int|
                0 <= i < visible && first + i < rows.len() && !(#[trigger] rows[first + i]
                    matches TreeRow::Candidate(c) && c >= popup.candidates@.len()) ==> exists|j: int|
                    0 <= j < shown.len() && (#[trigger] shown[j]).y == inner.y + i && content_is(
                        shown[j].content,
                        rows[first + i],
                    )
            &&& forall|j: int|
                0 <= j < shown.len() ==> inner.y <= (#[trigger] shown[j]).y < inner.y + visible
                    && first + (shown[j].y - inner.y) < rows.len() && content_is(
                    shown[j].content,
                    rows[first + (shown[j].y - inner.y)],
                )
            &&& forall|j: int, k: int|
                0 <= j < k < shown.len() ==> (#[trigger] shown[j]).y < (#[trigger] shown[k]).y
        }),
{
    let rows = tree_rows_of(popup.groups@, popup.groups@.len() as int);
    let candidates = popup.candidates@.len() as int;
    let first = tree_top(popup, visible);
    let wanted = placed(rows, candidates, first, visible, inner.y as int);
    lemma_placed(rows, candidates, first, visible, inner.y as int);
    assert forall|i: int|
        0 <= i < visible && first + i < rows.len() && !(#[trigger] rows[first + i]
            matches TreeRow::Candidate(c) && c >= popup.candidates@.len()) implies exists|j: int|
        0 <= j < shown.len() && (#[trigger] shown[j]).y == inner.y + i && content_is(
            shown[j].content,
            rows[first + i],
        ) by {
        assert(wanted.contains((inner.y + i, rows[first + i])));
        let j = choose|j: int| 0 <= j < wanted.len() && wanted[j] == (
            inner.y + i,
            rows[first + i],
        );
        assert(is_peek_row(shown[j], wanted[j], popup, place, palette));
    }
    assert forall|j: int| 0 <= j < shown.len() implies inner.y <= (#[trigger] shown[j]).y < inner.y
        + visible && first + (shown[j].y - inner.y) < rows.len() && content_is(
        shown[j].content,
        rows[first + (shown[j].y - inner.y)],
    ) by {
        assert(is_peek_row(shown[j], wanted[j], popup, place, palette));
    }
    assert forall|j: int, k: int| 0 <= j < k < shown.len() implies (#[trigger] shown[j]).y < (
    #[trigger] shown[k]).y by {
        assert(is_peek_row(shown[j], wanted[j], popup, place, palette));
        assert(is_peek_row(shown[k], wanted[k], popup, place, palette));
        assert(wanted[j].0 < wanted[k].0);
    }
}

/// The list names every file once, in order, and under an open file its places, in order;
/// under a closed one the next file follows.
pub proof fn open_files_list_their_places(groups: Seq<NavGroup>, g: int)
    requires
        0 <= g < groups.len() <= usize::MAX,
    ensures
        ({
            let rows = tree_rows_of(groups, groups.len() as int);
            let at = tree_rows_of(groups, g).len() as int;
            let after = tree_rows_of(groups, g + 1).len() as int;
            let places = if groups[g].end > groups[g].first {
                groups[g].end - groups[g].first
            } else {
                0
            };
            &&& g == 0 ==> at == 0
            &&& at < rows.len()
            &&& rows[at] == TreeRow::Group(g as usize)
            &&& !groups[g].expanded ==> after == at + 1
            &&& groups[g].expanded ==> after == at + 1 + places && forall|i: int|
                0 <= i < places ==> #[trigger] rows[at + 1 + i] == TreeRow::Candidate(
                    (groups[g].first + i) as usize,
                )
            &&& g + 1 == groups.len() ==> rows.len() == after
        }),
{
    lemma_tree_rows_grow(groups, g + 1, groups.len() as int);
    lemma_tree_rows_grow(groups, g, g + 1);
    let rows = tree_rows_of(groups, groups.len() as int);
    let at = tree_rows_of(groups, g).len() as int;
    let upto = tree_rows_of(groups, g + 1);
    assert forall|i: int| 0 <= i < upto.len() - at - 1 implies #[trigger] rows[at + 1 + i]
        == rows_of_group(groups[g], g)[1 + i] by {
        assert(rows[at + 1 + i] == upto[at + 1 + i]);
    }
    assert(rows[at] == upto[at]);
}

proof fn lemma_tree_rows_grow(groups: Seq<NavGroup>, m: int, n: int)
    requires
        0 <= m <= n <= groups.len(),
    ensures
        tree_rows_of(groups, m).len() <= tree_rows_of(groups, n).len(),
        forall|i: int|
            0 <= i < tree_rows_of(groups, m).len() ==> #[trigger] tree_rows_of(groups, n)[i]
                == tree_rows_of(groups, m)[i],
    decreases n - m,
{
    if m < n {
        lemma_tree_rows_grow(groups, m, n - 1);
    }
}

/// The row of a file says whether its places are listed, the name of the file, its directory
/// where it has one, and how many places it has.
pub proof fn files_say_whether_they_are_open(group: NavGroup, palette: Palette)
    requires
        group.first <= group.end,
    ensures
        ({
            let words = group_text(group, palette);
            let count = "  "@ + decimal((group.end - group.first) as nat);
            &&& group.expanded ==> words[0].0 == " "@ + "⌄"@ + " "@ + group.file@
            &&& !group.expanded ==> words[0].0 == " "@ + "›"@ + " "@ + group.file@
            &&& group.parent is None ==> words.len() == 2 && words[1].0 == count
            &&& group.parent is Some ==> words.len() == 3 && words[1].0 == "  "@
                + group.parent->0@ && words[2].0 == count
        }),
{
}

/// The selected place stands out most, the one under the mouse less, and no other does. Its
/// line is counted from one.
pub proof fn places_stand_out(
    row: PeekContent,
    popup: NavPopup,
    index: int,
    y: int,
    place: RowPlace,
    palette: Palette,
)
    requires
        is_candidate_row(row, popup, index, y, place, palette),
    ensures
        ({
            let hovered = place.hover matches Some((col, at)) && at == y && place.x <= col < place.x
                + place.width;
            row matches PeekContent::Candidate { index: at, line, background, .. } && {
                &&& at == index
                &&& index == popup.selected ==> background == palette.selection_bg
                &&& index != popup.selected && hovered ==> background == palette.hover_bg
                &&& index != popup.selected && !hovered ==> background == palette.chrome_bg
                &&& line.text@ == "  "@ + right_aligned(
                    (popup.candidates@[index].line + 1) as nat,
                    4,
                ) + "  "@
            }
        }),
{
}

/// The header names the file of the selected place, its directory where it has one, and then
/// the symbol, what is looked for and how many places there are.
pub proof fn headers_name_the_place(
    popup: NavPopup,
    file: Seq<char>,
    parent: Option<String>,
    kind: Seq<char>,
    palette: Palette,
)
    ensures
        ({
            let words = header_text(popup, file, parent, kind, palette);
            &&& words[0].0 == " "@ + file
            &&& parent is Some ==> words.len() == 3 && words[1].0 == "  "@ + parent->0@
            &&& parent is None ==> words.len() == 2
            &&& words.last().0 == "  › "@ + popup.symbol@ + " — "@ + kind + " ("@ + decimal(
                popup.candidates@.len(),
            ) + ")"@
        }),
{
}

/// The view has a header of one row below its upper edge, and below that the code on the left
/// and the list on the right; the code gets sixty-eight percent of the width.
pub proof fn views_have_three_parts(area: Rect)
    requires
        area.x + area.width <= u16::MAX,
        area.y + area.height <= u16::MAX,
        area.width >= 12,
        area.height >= 4,
    ensures
        header_of(area) == Rect::new(
            (area.x + 1) as u16,
            (area.y + 1) as u16,
            (area.width - 2) as u16,
            1,
        ),
        preview_of(area).x == area.x + 1 && preview_of(area).y == area.y + 2,
        preview_of(area).height == area.height - 3 && tree_of(area).height == area.height - 3,
        -50 <= 100 * preview_of(area).width - 68 * (area.width - 2) <= 50,
        tree_of(area).x + tree_of(area).width == area.x + area.width - 1,
        tree_of(area).x == preview_of(area).x + preview_of(area).width,
{
}

/// The code of a place stands in the first text colour over the colour of its row, and the
/// symbol in the accent colour, in bold, over the colour of matches.
pub proof fn symbols_stand_out(
    row: PeekContent,
    popup: NavPopup,
    index: int,
    y: int,
    place: RowPlace,
    palette: Palette,
)
    requires
        is_candidate_row(row, popup, index, y, place, palette),
    ensures
        row matches PeekContent::Candidate { line, snippet, background, .. } && {
            &&& line.style.fg == Some(palette.fg_secondary) && line.style.bg == Some(background)
            &&& forall|i: int|
                0 <= i < snippet@.len() ==> {
                    let style = (#[trigger] snippet@[i]).style;
                    ||| style.fg == Some(palette.fg_primary) && style.bg == Some(background)
                        && !style.bold
                    ||| style.fg == Some(palette.accent) && style.bg == Some(palette.search_match)
                        && style.bold
                }
        },
{
}

/// The names of files are bold and in the first text colour, and what stands beside them is
/// faint; all of it stands over the colour of the frame.
pub proof fn names_stand_out(
    popup: NavPopup,
    group: NavGroup,
    file: Seq<char>,
    parent: Option<String>,
    kind: Seq<char>,
    palette: Palette,
)
    ensures
        ({
            let header = header_text(popup, file, parent, kind, palette);
            let row = group_text(group, palette);
            let name = TextStyle {
                fg: Some(palette.fg_primary),
                bg: Some(palette.chrome_bg),
                bold: true,
                ..TextStyle::plain()
            };
            let rest = TextStyle {
                fg: Some(palette.fg_secondary),
                bg: Some(palette.chrome_bg),
                ..TextStyle::plain()
            };
            &&& header[0].1 == name && row[0].1 == name
            &&& forall|i: int| 0 < i < header.len() ==> (#[trigger] header[i]).1 == rest
            &&& forall|i: int| 0 < i < row.len() ==> (#[trigger] row[i]).1 == rest
        }),
{
}

/// The expanded view is as wide as its host and begins where the view opens. It is eighteen
/// rows high, or as high as its host or what is left below allows.
pub proof fn views_are_as_wide_as_their_host(host: Rect, anchor_row: int)
    requires
        0 <= anchor_row,
        host.height > 0,
        host.y + host.height <= u16::MAX,
    ensures
        ({
            let view = view_in(host, anchor_row);
            let left = host.y + host.height - peek_top(host, anchor_row);
            &&& view.x == host.x && view.width == host.width
            &&& view.y == peek_top(host, anchor_row)
            &&& view.height <= 18 && view.height <= host.height && view.height <= left
            &&& view.height == 18 || view.height == host.height || view.height == left
        }),
{
    peeks_stay_inside(host, anchor_row);
}

} // verus!
