use reef_tui::engine::{FindTarget, SearchTarget};
use reef_tui::geometry::Rect;
use reef_tui::ui::preview::card::{
    empty_note, note_rect, plan_card, preview_inner, MIN_CHROME_HEIGHT, MIN_META_HEIGHT,
};
use reef_tui::ui::preview::markdown::{
    MarkdownDoc, MarkdownLayoutCache, MarkdownRole, MarkdownRow, MarkdownSpan, MarkdownVisualRow,
};
use reef_tui::ui::preview::markdown_spans::{
    code_block_bg, intersect_range, intersect_ranges, link_hover_style, pad_row_bg, row_bg,
    slice_row_spans, span_hovered, span_style,
};
use reef_tui::ui::preview::markdown_view::{
    row_marks, Drawing, MarkdownView, RowMarks, RowMatches, RowSources,
};
use reef_tui::ui::preview::structured::{
    mark_cell, outline_limits, row_gutter, row_tokens, row_y, JsonOutlineRow, JsonSegment,
    JsonSegmentRole,
};
use reef_tui::ui::preview::text::{
    mark_row, plan_text_rows, preview_match_count, settle_text, underline_on_row,
    PreviewHighlight,
};
use reef_tui::ui::preview::video::{
    centered, clock_text, meta_line, note_text, pending_note, rule_width, transport_hint,
    transport_line, VideoFacts, VideoHint, VideoNote, VideoUnavailable,
};
use reef_tui::ui::preview::wrap::wrap_text_ranges;
use reef_tui::ui::style::{Color, Palette, StyledText, TextStyle};
use unicode_width::UnicodeWidthStr;

fn palette(is_dark: bool) -> Palette {
    Palette {
        is_dark,
        fg_primary: Color::Rgb(1, 1, 1),
        fg_secondary: Color::Rgb(2, 2, 2),
        chrome_muted_fg: Color::Rgb(3, 3, 3),
        accent: Color::Rgb(4, 4, 4),
        border: Color::Rgb(5, 5, 5),
        chrome_bg: Color::Rgb(6, 6, 6),
        hover_bg: Color::Rgb(7, 7, 7),
        selection_bg: Color::Rgb(8, 8, 8),
        search_match: Color::Rgb(9, 9, 9),
    }
}

fn span(text: &str, role: MarkdownRole) -> MarkdownSpan {
    MarkdownSpan {
        text: text.to_string(),
        role,
        bold: false,
        italic: false,
        link: None,
        syntax: None,
    }
}

fn row(spans: Vec<MarkdownSpan>) -> MarkdownRow {
    let text = spans.iter().map(|s| s.text.as_str()).collect::<String>();
    MarkdownRow { spans, text }
}

#[test]
fn markdown_code_background_pads_to_full_row() {
    let mut spans = vec![StyledText { text: " code ".to_string(), style: TextStyle::plain() }];
    let bg = code_block_bg(&palette(false));
    pad_row_bg(&mut spans, 10, Some(bg));
    assert_eq!(spans.len(), 2);
    assert_eq!(spans[1].text, "    ");
    assert_eq!(spans[1].style.bg, Some(bg));
    assert_eq!(bg, Color::Rgb(246, 248, 250));
}

#[test]
fn markdown_link_hover_changes_foreground_color() {
    let th = palette(true);
    let base = TextStyle::plain().with_fg(th.accent);
    let hovered = link_hover_style(base, &th);
    assert_ne!(hovered.fg, Some(th.accent));
    assert_eq!(hovered.fg, Some(Color::Rgb(255, 220, 120)));
    assert!(hovered.bold);
    assert!(hovered.bg.is_none());
}

#[test]
fn prose_wraps_at_words_and_wide_character_boundaries() {
    assert_eq!(wrap_text_ranges("alpha beta gamma", 10), vec![0..10, 11..16]);
    assert_eq!(wrap_text_ranges("甲乙丙丁", 4), vec![0..6, 6..12]);
}

#[test]
fn prose_wraps_at_the_edges() {
    assert_eq!(wrap_text_ranges("", 10), vec![0..0]);
    assert_eq!(wrap_text_ranges("abc", 0), vec![0..3]);
    assert_eq!(wrap_text_ranges("abcdef", 4), vec![0..4, 4..6]);
    assert_eq!(wrap_text_ranges("甲乙", 1), vec![0..3, 3..6]);
    assert_eq!(wrap_text_ranges("ab   ", 2), vec![0..2]);
}

#[test]
fn prose_layout_expands_one_logical_row_into_visual_rows() {
    let markdown = MarkdownDoc {
        rows: Some(vec![row(vec![span("alpha beta gamma", MarkdownRole::Normal)])]),
        source_lines: vec!["alpha beta gamma".to_string()],
    };
    let mut cache = MarkdownLayoutCache::default();
    cache.ensure(1, &markdown, 10);
    assert_eq!(
        cache.rows,
        vec![
            MarkdownVisualRow { logical_row: 0, byte_start: 0, byte_end: 10 },
            MarkdownVisualRow { logical_row: 0, byte_start: 11, byte_end: 16 },
        ]
    );
}

#[test]
fn tables_and_code_blocks_keep_natural_width() {
    let markdown = MarkdownDoc {
        rows: Some(vec![
            row(vec![
                span("│ ", MarkdownRole::Border),
                span("first", MarkdownRole::TableHeader),
                span(" │ ", MarkdownRole::Border),
                span("second", MarkdownRole::TableHeader),
                span(" │", MarkdownRole::Border),
            ]),
            row(vec![span("", MarkdownRole::Normal)]),
            row(vec![span(" text ", MarkdownRole::CodeBlockHeader)]),
            row(vec![span("abcdefgh", MarkdownRole::CodeBlockText)]),
        ]),
        source_lines: Vec::new(),
    };
    let mut cache = MarkdownLayoutCache::default();
    cache.ensure(1, &markdown, 4);
    assert_eq!(cache.len(), 4);
    assert!(markdown
        .rows
        .iter()
        .flatten()
        .any(|row| UnicodeWidthStr::width(row.text.as_str()) > 4));
    assert_eq!(
        cache.rows.iter().map(|row| row.logical_row).collect::<Vec<_>>(),
        (0..4).collect::<Vec<_>>()
    );
}

#[test]
fn layouts_are_kept_while_nothing_changes() {
    let markdown = MarkdownDoc {
        rows: None,
        source_lines: vec!["one two".to_string(), "three".to_string()],
    };
    let mut cache = MarkdownLayoutCache::default();
    assert!(cache.ensure(7, &markdown, 4));
    assert!(!cache.ensure(7, &markdown, 4));
    assert!(cache.ensure(7, &markdown, 5));
    assert!(cache.matches(7) && !cache.matches(8));
    assert_eq!(cache.len(), 3);
    assert_eq!(cache.first_visual_row(1), 2);
    assert_eq!(cache.first_visual_row(9), 2);
    assert_eq!(cache.max_scroll(2), 1);
    assert_eq!(cache.row(3), None);
}

fn page() -> MarkdownDoc {
    let mut link = span("docs", MarkdownRole::Link);
    link.link = Some("docs.md".to_string());
    MarkdownDoc {
        rows: Some(vec![
            row(vec![span("see ", MarkdownRole::Normal), link, span(" now", MarkdownRole::Normal)]),
            row(vec![span("let x;", MarkdownRole::CodeBlockText)]),
            row(vec![span("end", MarkdownRole::Normal)]),
        ]),
        source_lines: Vec::new(),
    }
}

#[test]
fn frames_follow_the_engine() {
    let doc = page();
    let mut view = MarkdownView::default();
    let area = Rect::new(2, 1, 8, 4);
    let frame = view.begin_frame(1, &doc, area, 3, 1);
    assert_eq!(frame.origin, (2, 3));
    assert_eq!(frame.content_height, 2);
    assert_eq!(view.layout.len(), 4);
    assert_eq!(view.visual_scroll, 2);
    assert_eq!(frame.scroll_to, None);
    assert_eq!(frame.max_h, 0);
    let end = view.begin_frame(1, &doc, area, 3, usize::MAX);
    assert_eq!(view.visual_scroll, 2);
    assert_eq!(end.scroll_to, Some(1));
    view.visual_scroll = 1;
    let stay = view.begin_frame(1, &doc, area, 3, 1);
    assert_eq!(view.visual_scroll, 1);
    assert_eq!(stay.scroll_to, Some(0));
}

#[test]
fn rows_show_links_and_marks() {
    let doc = page();
    let mut view = MarkdownView::default();
    let area = Rect::new(2, 1, 20, 4);
    let frame = view.begin_frame(1, &doc, area, 1, 0);
    let marks: Vec<RowMarks> = vec![
        RowMarks { ranges: vec![2..6], current: Some(2..6), selection: None },
        RowMarks { ranges: Vec::new(), current: None, selection: Some(4..99) },
        RowMarks { ranges: Vec::new(), current: None, selection: None },
    ];
    let d = Drawing { x: 2, width: 20, h_scroll: 0, hover: Some((7, 1)), palette: palette(true) };
    let rows = view.plan_rows(&doc, &frame, &d, &marks);
    assert_eq!(rows.len(), 3);
    assert_eq!(rows[0].pieces.len(), 3);
    assert_eq!(rows[0].pieces[1].text, "docs");
    assert_eq!(rows[0].styles[1].fg, Some(Color::Rgb(255, 220, 120)));
    assert_eq!(rows[0].links.len(), 1);
    assert_eq!((rows[0].links[0].x, rows[0].links[0].width), (6, 4));
    assert_eq!(rows[0].links[0].link, "docs.md");
    assert_eq!(rows[0].ranges, vec![2..6]);
    assert_eq!(rows[1].selection, Some(4..6));
    assert_eq!(rows[1].bg, Some(Color::Rgb(36, 38, 46)));
    assert_eq!(rows[2].y, 3);
}

#[test]
fn source_lines_are_shown_plain() {
    let doc = MarkdownDoc { rows: None, source_lines: vec!["# a 界".to_string()] };
    let mut view = MarkdownView::default();
    let frame = view.begin_frame(1, &doc, Rect::new(0, 0, 3, 5), 1, 0);
    let marks: Vec<RowMarks> = (0..4)
        .map(|_| RowMarks { ranges: Vec::new(), current: None, selection: None })
        .collect();
    let d = Drawing { x: 0, width: 3, h_scroll: 0, hover: None, palette: palette(false) };
    let rows = view.plan_rows(&doc, &frame, &d, &marks);
    let texts: Vec<&str> = rows.iter().map(|r| r.pieces[0].text.as_str()).collect();
    assert_eq!(texts, vec!["# a", "界"]);
}

#[test]
fn spans_are_cut_at_bytes() {
    let spans = vec![span("ab界", MarkdownRole::Normal), span("cd", MarkdownRole::Code)];
    let pieces = slice_row_spans(&spans, &(2..6));
    assert_eq!(pieces.len(), 2);
    assert_eq!((pieces[0].span, pieces[0].text.as_str()), (0, "界"));
    assert_eq!((pieces[1].span, pieces[1].text.as_str()), (1, "c"));
    assert_eq!(slice_row_spans(&spans, &(0..0)).len(), 0);
}

#[test]
fn marks_are_cut_to_the_row() {
    assert_eq!(intersect_range(&(2..8), &(4..6)), Some(0..2));
    assert_eq!(intersect_range(&(0..4), &(4..6)), None);
    assert_eq!(intersect_ranges(&vec![0..5, 5..9, 20..30], &(4..10)), vec![0..1, 1..5]);
}

#[test]
fn hovering_follows_the_scroll() {
    assert!(span_hovered(Some((12, 5)), (10, 5), 4, 8, 2, 20));
    assert!(!span_hovered(Some((11, 5)), (10, 5), 4, 8, 2, 20));
    assert!(!span_hovered(Some((12, 6)), (10, 5), 4, 8, 2, 20));
    assert!(!span_hovered(None, (10, 5), 4, 8, 2, 20));
    assert!(!span_hovered(Some((10, 5)), (10, 5), 4, 8, 8, 20));
}

#[test]
fn looks_follow_the_role() {
    let th = palette(true);
    let heading = span_style(&span("x", MarkdownRole::Heading), &th);
    assert_eq!((heading.fg, heading.bold), (Some(th.accent), true));
    let code = span_style(&span("x", MarkdownRole::CodeBlockText), &th);
    assert_eq!(code.bg, Some(Color::Rgb(36, 38, 46)));
    let mut coloured = span("x", MarkdownRole::CodeBlockText);
    coloured.syntax = Some(TextStyle::plain().with_fg(Color::Green).with_italic());
    let style = span_style(&coloured, &th);
    assert_eq!((style.fg, style.italic), (Some(Color::Green), true));
    let mut link = span("x", MarkdownRole::Quote);
    link.link = Some("y".to_string());
    let style = span_style(&link, &th);
    assert_eq!((style.fg, style.underlined), (Some(th.accent), true));
    assert_eq!(row_bg(&vec![span("x", MarkdownRole::Quote)], &th), None);
}

#[test]
fn frame_is_centered_and_clamped() {
    let area = Rect::new(10, 5, 40, 20);
    let placed = centered(area, Rect::new(0, 0, 20, 10));
    assert_eq!(placed, Rect::new(20, 10, 20, 10));
    let clamped = centered(area, Rect::new(0, 0, 100, 100));
    assert_eq!(clamped, Rect::new(10, 5, 40, 20));
}

#[test]
fn videos_say_what_they_are() {
    let facts = VideoFacts { width: 1920, height: 1080, duration: Some("0:12".to_string()) };
    assert_eq!(meta_line(&Some(facts), "4.2 MB"), "1920×1080 · 0:12 · 4.2 MB");
    let short = VideoFacts { width: 2, height: 1, duration: None };
    assert_eq!(meta_line(&Some(short), ""), "2×1");
    assert_eq!(meta_line(&None, "4.2 MB"), "4.2 MB");
    assert_eq!(pending_note(&None), (VideoNote::Loading, None));
    assert_eq!(
        pending_note(&Some(VideoUnavailable::Unreadable("bad".to_string()))),
        (VideoNote::Unreadable, Some("bad".to_string()))
    );
    assert_eq!(
        pending_note(&Some(VideoUnavailable::Disabled)),
        (VideoNote::UnsupportedTerminal, None)
    );
}

#[test]
fn transport_line_drops_the_rule_first() {
    let th = palette(true);
    assert_eq!(rule_width(40, "0:05 / 0:12", "p pause"), 18);
    assert_eq!(rule_width(20, "0:05 / 0:12", "p pause"), 0);
    let line = transport_line("0:05".to_string(), "p".to_string(), 4, 1, &th);
    let texts: Vec<&str> = line.iter().map(|s| s.text.as_str()).collect();
    assert_eq!(texts, vec!["0:05", "  ", "━", "───", "  ", "p"]);
    let short = transport_line("0:05".to_string(), "p".to_string(), 0, 0, &th);
    assert_eq!(short.len(), 3);
}

#[test]
fn cards_leave_room_for_the_picture() {
    let area = Rect::new(0, 0, 40, 20);
    let image = plan_card(area, 2, MIN_META_HEIGHT, false);
    assert_eq!(image.meta, Some(Rect::new(0, 2, 40, 1)));
    assert_eq!(image.picture, Some(Rect::new(0, 4, 40, 16)));
    assert_eq!(image.footer, None);
    let video = plan_card(area, 2, MIN_CHROME_HEIGHT, true);
    assert_eq!(video.picture, Some(Rect::new(0, 4, 40, 15)));
    assert_eq!(video.footer, Some(Rect::new(0, 19, 40, 1)));
    let low = plan_card(Rect::new(0, 0, 40, 4), 2, MIN_CHROME_HEIGHT, true);
    assert_eq!((low.meta, low.footer), (None, None));
    assert_eq!(low.picture, Some(Rect::new(0, 2, 40, 2)));
    let full = plan_card(Rect::new(0, 0, 40, 8), 8, MIN_CHROME_HEIGHT, true);
    assert_eq!(full.picture, None);
}

#[test]
fn notes_stand_in_the_middle() {
    assert_eq!(preview_inner(Rect::new(4, 2, 30, 9)), Rect::new(5, 2, 28, 9));
    assert_eq!(empty_note(Rect::new(4, 2, 30, 9)), Some(Rect::new(9, 6, 30, 1)));
    assert_eq!(empty_note(Rect::new(4, 2, 30, 0)), None);
    assert_eq!(note_rect(Rect::new(4, 2, 30, 9), 10), Rect::new(14, 6, 20, 1));
    assert_eq!(note_rect(Rect::new(4, 2, 30, 9), 99), Rect::new(4, 6, 30, 1));
}

#[test]
fn text_is_scrolled_within_its_lines() {
    let lines: Vec<String> = (0..50).map(|i| "x".repeat(i + 1)).collect();
    let area = Rect::new(2, 1, 20, 12);
    let frame = settle_text(&lines, area, 3, 99, 99);
    assert_eq!(frame.content_height, 10);
    assert_eq!(frame.scroll, 40);
    assert_eq!(frame.h_scroll, 50 - 14);
    assert_eq!(frame.origin, (8, 3, 6));
    let rows = plan_text_rows(&frame, lines.len());
    assert_eq!(rows.len(), 10);
    assert_eq!((rows[0].y, rows[0].line, rows[0].gutter.as_str()), (3, 40, "   41 "));
}

#[test]
fn searches_are_counted_from_one() {
    let here = Some(SearchTarget::FilePreview);
    assert_eq!(preview_match_count(here, 4, Some(2)), Some((3, 4)));
    assert_eq!(preview_match_count(here, 4, None), Some((0, 4)));
    assert_eq!(preview_match_count(here, 0, None), None);
    assert_eq!(preview_match_count(Some(SearchTarget::Diff), 4, Some(2)), None);
}

#[test]
fn jumps_mark_their_row() {
    let mark = Some(PreviewHighlight { path: "a.rs".to_string(), row: 3, start: 2, end: 5 });
    assert_eq!(mark_row(vec![0..1], None, &mark, "a.rs", 3), (vec![0..1, 2..5], Some(2..5)));
    assert_eq!(
        mark_row(vec![0..1], Some(0..1), &mark, "a.rs", 3),
        (vec![0..1, 2..5], Some(0..1))
    );
    assert_eq!(mark_row(vec![0..1], None, &mark, "b.rs", 3), (vec![0..1], None));
    assert_eq!(underline_on_row(&Some((3, 2..5)), 3), Some(2..5));
    assert_eq!(underline_on_row(&Some((3, 5..5)), 3), None);
    assert_eq!(underline_on_row(&Some((3, 2..5)), 4), None);
}

#[test]
fn outlines_show_json() {
    let th = palette(true);
    let row = JsonOutlineRow {
        line_number: 12,
        depth: 1,
        prefix_segments: vec![
            JsonSegment { text: "\"a\"".to_string(), role: JsonSegmentRole::Key },
            JsonSegment { text: ": ".to_string(), role: JsonSegmentRole::Punctuation },
        ],
        collapsed: Some(true),
        suffix_segments: vec![JsonSegment {
            text: "{…}".to_string(),
            role: JsonSegmentRole::Punctuation,
        }],
    };
    let tokens = row_tokens(&row, &th);
    let texts: Vec<&str> = tokens.iter().map(|s| s.text.as_str()).collect();
    assert_eq!(texts, vec!["    ", "\"a\"", ": ", "▸ ", "{…}"]);
    assert_eq!(tokens[1].style.fg, Some(th.accent));
    let area = Rect::new(10, 2, 30, 10);
    assert_eq!(mark_cell(&row, area, 0), Some(10 + 6 + 9));
    assert_eq!(mark_cell(&row, area, 9), Some(16));
    assert_eq!(mark_cell(&row, area, 10), None);
    assert_eq!(row_y(&row, 5, 4), 10);
    assert_eq!(row_gutter(&row), "   12 ");
    assert_eq!(outline_limits(40, 50, area, 4), (32, 26));
}

fn sources() -> RowSources {
    RowSources {
        found: RowMatches { ranges: vec![1..2, 4..5], current: Some(4..5) },
        searched: RowMatches { ranges: vec![7..9], current: None },
        selection: Some(0..3),
    }
}

#[test]
fn marks_are_those_of_the_search_that_looks_here() {
    let found = row_marks(Some(FindTarget::FilePreview), sources());
    assert_eq!(found.ranges, vec![1..2, 4..5]);
    assert_eq!(found.current, Some(4..5));
    assert_eq!(found.selection, Some(0..3));
    for target in [None, Some(FindTarget::DiffUnified)] {
        let searched = row_marks(target, sources());
        assert_eq!(searched.ranges, vec![7..9]);
        assert_eq!(searched.current, None);
        assert_eq!(searched.selection, Some(0..3));
    }
}

#[test]
fn videos_say_what_the_key_does_next() {
    assert_eq!(transport_hint(true, false), VideoHint::Replay);
    assert_eq!(transport_hint(true, true), VideoHint::Replay);
    assert_eq!(transport_hint(false, true), VideoHint::Pause);
    assert_eq!(transport_hint(false, false), VideoHint::Play);
}

#[test]
fn clocks_show_the_duration_where_it_is_known() {
    assert_eq!(clock_text("0:03", Some("1:20")), "0:03 / 1:20");
    assert_eq!(clock_text("0:03", None), "0:03");
}

#[test]
fn notes_end_with_what_went_wrong() {
    assert_eq!(note_text("Unreadable", &Some("no stream".to_string())), "Unreadable: no stream");
    assert_eq!(note_text("Loading", &None), "Loading");
}
