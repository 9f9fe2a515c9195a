use reef_tui::engine::InputMode;
use reef_tui::geometry::Rect;
use reef_tui::ui::context_menu_panel::{context_menu_area, render_rows, ContextMenuRow, MenuZone};
use reef_tui::ui::focus::header_title_style;
use reef_tui::ui::hosts_picker_panel::{caret_x, plan_hosts_picker, row_rect, row_styles};
use reef_tui::ui::hover::apply;
use reef_tui::ui::layout::center_rect;
use reef_tui::ui::mouse::ClickAction;
use reef_tui::ui::nav_candidates_popup::{
    compact_location, peek_area, peek_host_rect, preview_start, LocationSurface, NavGroup,
    NavLocation, NavPopup, PeekAction, PeekViewport,
};
use reef_tui::ui::nav_compact::{compact_size, plan_compact};
use reef_tui::ui::nav_expanded::{
    close_zone, expanded_areas, header_names, header_spans, plan_tree, tree_rows, PeekContent,
    TreeRow,
};
use reef_tui::ui::nav_preview::{message_row, preview_choice, PeekPreview, PreviewChoice};
use reef_tui::ui::scrollbar::scrollbar_thumb;
use reef_tui::ui::snippets::{
    compact_snippet_spans, exact_snippet_spans, truncate_end, truncate_start,
};
use reef_tui::ui::style::{Color, Palette, TextStyle};

fn dark() -> Palette {
    Palette {
        is_dark: true,
        fg_primary: Color::Rgb(220, 220, 220),
        fg_secondary: Color::Rgb(140, 140, 140),
        chrome_muted_fg: Color::Rgb(100, 100, 100),
        accent: Color::Rgb(90, 170, 250),
        border: Color::Rgb(60, 60, 60),
        chrome_bg: Color::Rgb(20, 20, 20),
        hover_bg: Color::Rgb(35, 35, 35),
        selection_bg: Color::Rgb(40, 60, 90),
        search_match: Color::Rgb(90, 80, 20),
    }
}

fn light() -> Palette {
    Palette {
        is_dark: false,
        fg_primary: Color::Rgb(30, 30, 30),
        fg_secondary: Color::Rgb(110, 110, 110),
        chrome_muted_fg: Color::Rgb(150, 150, 150),
        accent: Color::Rgb(0, 90, 200),
        border: Color::Rgb(200, 200, 200),
        chrome_bg: Color::Rgb(245, 245, 245),
        hover_bg: Color::Rgb(230, 230, 230),
        selection_bg: Color::Rgb(200, 220, 250),
        search_match: Color::Rgb(250, 240, 160),
    }
}

#[test]
fn context_menu_stays_on_the_last_row_there_is() {
    let screen = Rect::new(0, 65511, 80, 24);
    assert_eq!(context_menu_area(screen, (12, 65532), 18, 4), Rect::new(12, 65528, 18, 4));
    assert_eq!(context_menu_area(screen, (12, 65530), 18, 4), Rect::new(12, 65531, 18, 4));
    assert_eq!(context_menu_area(screen, (12, 65534), 18, 24), Rect::new(12, 65511, 18, 24));
    let rows = vec![ContextMenuRow { label: "Open".to_string(), enabled: true }];
    let plan = render_rows(screen, (12, 65534), 0, &rows, None, &dark());
    assert_eq!(plan.area, Rect::new(12, 65531, 10, 3));
    assert_eq!(plan.lines[0].y, 65532);
}

#[test]
fn context_menu_prefers_row_below_anchor() {
    let area = context_menu_area(Rect::new(0, 0, 80, 24), (12, 7), 18, 4);
    assert_eq!(area, Rect::new(12, 8, 18, 4));
}

#[test]
fn context_menu_flips_above_anchor_near_bottom() {
    let area = context_menu_area(Rect::new(0, 0, 80, 24), (12, 22), 18, 4);
    assert_eq!(area, Rect::new(12, 18, 18, 4));
}

#[test]
fn context_menu_clamps_to_offset_screen_bounds() {
    let area = context_menu_area(Rect::new(5, 3, 20, 10), (30, 12), 8, 4);
    assert_eq!(area, Rect::new(17, 8, 8, 4));
}

#[test]
fn menus_show_their_rows() {
    let rows = vec![
        ContextMenuRow { label: "Copy".to_string(), enabled: false },
        ContextMenuRow { label: "选择全部".to_string(), enabled: true },
    ];
    let plan = render_rows(Rect::new(0, 0, 80, 24), (2, 3), 1, &rows, Some((4, 5)), &dark());
    assert_eq!(plan.area, Rect::new(2, 4, 14, 4));
    assert_eq!(plan.lines.len(), 2);
    assert_eq!(plan.lines[0].y, 5);
    assert_eq!(plan.lines[0].text.text, "  Copy      ");
    assert!(plan.lines[0].text.style.dim);
    assert_eq!(plan.lines[0].text.style.bg, Some(dark().selection_bg));
    assert_eq!(plan.lines[1].text.text, "  选择全部  ");
    assert!(plan.lines[1].text.style.bold);
    assert_eq!(plan.zones.len(), 26);
    assert_eq!(plan.zones[0], MenuZone { rect: Rect::new(0, 0, 80, 1), row: None });
    assert_eq!(plan.zones[25], MenuZone { rect: Rect::new(3, 6, 12, 1), row: Some(1) });
}

#[test]
fn header_title_style_changes_color_with_focus() {
    let th = dark();
    let f = header_title_style(&th, true);
    let u = header_title_style(&th, false);
    assert_ne!(f.fg, u.fg, "focused/unfocused titles must differ");
    assert_eq!(f.fg, Some(th.accent));
    assert_eq!(u.fg, Some(th.fg_secondary));
}

#[test]
fn header_title_style_keeps_bold_in_both_states() {
    let th = dark();
    for focused in [true, false] {
        let s = header_title_style(&th, focused);
        assert!(s.bold, "BOLD must be set when focused={focused}");
    }
}

#[test]
fn header_title_style_works_for_light_theme_too() {
    let th = light();
    let f = header_title_style(&th, true);
    let u = header_title_style(&th, false);
    assert_ne!(f.fg, u.fg);
}

#[test]
fn hover_leaves_backgrounds_alone() {
    let plain = TextStyle::plain();
    let tint = Color::Rgb(1, 2, 3);
    assert_eq!(apply(plain, true, tint), plain.with_bg(tint));
    assert_eq!(apply(plain, false, tint), plain);
    let marked = plain.with_bg(Color::Reset);
    assert_eq!(apply(marked, true, tint), marked);
}

#[test]
fn popups_are_centred() {
    assert_eq!(center_rect(Rect::new(0, 0, 100, 41), 20, 10), Rect::new(40, 15, 20, 10));
    assert_eq!(center_rect(Rect::new(3, 4, 10, 5), 20, 10), Rect::new(3, 4, 20, 10));
}

#[test]
fn hosts_picker_has_its_place() {
    let plan = plan_hosts_picker(Rect::new(0, 0, 120, 40));
    assert_eq!(plan.area, Rect::new(26, 9, 68, 22));
    assert_eq!(plan.inner, Rect::new(28, 10, 64, 20));
    assert_eq!((plan.input_y, plan.separator_y, plan.list_y), (10, 11, 12));
    assert_eq!((plan.list_h, plan.footer_y), (17, 29));
    assert_eq!(row_rect(&plan, 16), Some(Rect::new(28, 28, 64, 1)));
    assert_eq!(row_rect(&plan, 17), None);
    let small = plan_hosts_picker(Rect::new(0, 0, 10, 4));
    assert_eq!(small.area, Rect::new(0, 0, 20, 8));
}

#[test]
fn hosts_picker_caret_counts_columns() {
    let inner = Rect::new(28, 10, 64, 20);
    assert_eq!(caret_x(inner, InputMode::Search, "ab你", 5), 34);
    assert_eq!(caret_x(inner, InputMode::Search, "ab你", 99), 34);
    assert_eq!(caret_x(inner, InputMode::Path, "", 0), 30);
    let long = "x".repeat(500);
    assert_eq!(caret_x(inner, InputMode::Search, &long, 500), 28 + 63);
}

#[test]
fn hosts_are_shown_by_their_kind() {
    let th = dark();
    let (left, right) = row_styles(true, false, &th);
    assert_eq!((left.bg, left.bold), (Some(th.accent), true));
    assert_eq!((right.bg, right.bold), (Some(th.accent), false));
    assert_eq!(row_styles(false, true, &th).0.fg, Some(th.accent));
    assert_eq!(row_styles(false, false, &th).0.fg, Some(th.fg_primary));
}

#[test]
fn peek_area_uses_anchor_when_enough_space_remains() {
    let host = Rect::new(10, 2, 100, 30);
    assert_eq!(peek_area(host, 12), Rect::new(10, 12, 100, 18));
}

#[test]
fn peek_area_moves_up_when_anchor_is_near_bottom() {
    let host = Rect::new(10, 2, 100, 20);
    assert_eq!(peek_area(host, 20), Rect::new(10, 4, 100, 18));
}

#[test]
fn peeks_need_a_host() {
    let screen = Rect::new(0, 0, 80, 24);
    let preview = LocationSurface::FilePreview;
    assert_eq!(peek_host_rect(preview, None, Some(screen), screen), screen);
    assert_eq!(peek_host_rect(preview, Some(Rect::new(1, 1, 0, 5)), None, screen), screen);
    let panel = Rect::new(1, 1, 5, 5);
    assert_eq!(peek_host_rect(preview, Some(panel), None, screen), panel);
    assert_eq!(peek_host_rect(LocationSurface::SearchPreview, Some(panel), None, screen), panel);
    assert_eq!(peek_host_rect(LocationSurface::GitDiff, Some(panel), None, screen), screen);
    assert_eq!(peek_host_rect(LocationSurface::GraphDiff, None, Some(panel), screen), panel);
    let flat = Rect::new(1, 1, 5, 0);
    assert_eq!(peek_area(flat, 3), flat);
}

#[test]
fn preview_start_centers_target_and_clamps_at_end() {
    assert_eq!(preview_start(100, 98, 10), 90);
}

#[test]
fn scrollbar_thumb_starts_at_top_for_zero_scroll() {
    assert_eq!(scrollbar_thumb(100, 10, 0), Some(0..1));
}

#[test]
fn scrollbar_thumb_reaches_bottom_at_max_scroll() {
    assert_eq!(scrollbar_thumb(100, 10, 90), Some(9..10));
}

#[test]
fn scrollbar_thumb_is_absent_when_content_fits() {
    assert_eq!(scrollbar_thumb(10, 10, 0), None);
}

#[test]
fn scrollbar_thumb_shows_the_share() {
    assert_eq!(scrollbar_thumb(20, 10, 5), Some(2..7));
    assert_eq!(scrollbar_thumb(usize::MAX, usize::MAX - 1, 1), Some(1..usize::MAX - 1));
    assert_eq!(scrollbar_thumb(5, 0, 0), None);
}

#[test]
fn truncate_end_respects_unicode_display_width() {
    assert_eq!(truncate_end("abc界def", 6), "abc界…");
}

#[test]
fn cut_texts_keep_what_fits() {
    assert_eq!(truncate_end("abc", 3), "abc");
    assert_eq!(truncate_end("abcd", 0), "");
    assert_eq!(truncate_start("a/b/engine.rs", 10), "…engine.rs");
    assert_eq!(truncate_start("界界界", 4), "…界");
    assert_eq!(truncate_start("abc", 3), "abc");
}

fn location(path: Option<&str>, line: usize, snippet: &str) -> NavLocation {
    NavLocation {
        path: path.map(|p| p.to_string()),
        line,
        byte_start: 0,
        byte_end: 4,
        snippet: snippet.to_string(),
        match_start: 0,
        match_end: 4,
    }
}

#[test]
fn compact_location_preserves_filename_when_path_is_wide() {
    let candidate = location(
        Some("a/very/long/workspace/path/with/many/components/navigation/engine.rs"),
        41,
        "ReefApp::new()",
    );
    let location = compact_location(&candidate, "unused.rs");
    assert!(location.starts_with('…') && location.ends_with("engine.rs:42"));
}

#[test]
fn compact_snippet_spans_highlight_every_symbol_occurrence() {
    let normal = TextStyle::plain().with_fg(Color::Reset);
    let highlighted = TextStyle::plain().with_fg(Color::Yellow);
    let spans = compact_snippet_spans(
        "crate::diff::{DiffLine, Vec<DiffLine>}",
        "DiffLine",
        normal,
        highlighted,
    );
    assert_eq!(
        spans.iter().map(|span| (span.text.as_str(), span.style)).collect::<Vec<_>>(),
        vec![
            ("crate::diff::{", normal),
            ("DiffLine", highlighted),
            (", Vec<", normal),
            ("DiffLine", highlighted),
            (">}", normal),
        ]
    );
}

#[test]
fn exact_snippet_spans_highlight_the_candidate_occurrence() {
    let normal = TextStyle::plain().with_fg(Color::Reset);
    let highlighted = TextStyle::plain().with_fg(Color::Yellow);
    let spans = exact_snippet_spans("target(target())", 7, 13, normal, highlighted);
    assert_eq!(
        spans.iter().map(|span| (span.text.as_str(), span.style)).collect::<Vec<_>>(),
        vec![("target(", normal), ("target", highlighted), ("())", normal)]
    );
}

#[test]
fn snippets_without_a_match_stay_whole() {
    let plain = TextStyle::plain();
    let bold = plain.with_bold();
    let whole = |text: &str, symbol: &str| -> Vec<String> {
        compact_snippet_spans(text, symbol, plain, bold).into_iter().map(|s| s.text).collect()
    };
    assert_eq!(whole("abc", ""), vec!["abc"]);
    assert_eq!(whole("", "x"), vec![""]);
    assert_eq!(whole("abc", "x"), vec!["abc"]);
    assert_eq!(whole("aaa", "aa"), vec!["aa", "a"]);
    assert_eq!(exact_snippet_spans("界x", 1, 3, plain, bold).len(), 1);
    assert_eq!(exact_snippet_spans("界x", 0, 3, plain, bold).len(), 2);
    assert_eq!(exact_snippet_spans("abc", 2, 9, plain, bold).len(), 1);
    assert_eq!(exact_snippet_spans("abc", 2, 2, plain, bold).len(), 1);
}

fn popup(count: usize) -> NavPopup {
    NavPopup {
        symbol: "name".to_string(),
        candidates: (0..count).map(|i| location(None, i, "name(1)")).collect(),
        groups: vec![
            NavGroup {
                file: "a.rs".to_string(),
                parent: Some("src".to_string()),
                expanded: true,
                first: 0,
                end: 2,
            },
            NavGroup {
                file: "b.rs".to_string(),
                parent: None,
                expanded: false,
                first: 2,
                end: count,
            },
        ],
        selected: 1,
        scroll: 0,
        current_path: "src/main.rs".to_string(),
    }
}

#[test]
fn compact_list_shows_what_fits() {
    let screen = Rect::new(0, 0, 100, 30);
    let th = dark();
    assert_eq!(compact_size(screen, 5), (82, 7));
    assert_eq!(compact_size(Rect::new(0, 0, 40, 6), 10), (40, 6));
    let p = popup(8);
    let plan = plan_compact(&p, screen, (50, 28), 5, 5, "References", Some((30, 24)), &th).unwrap();
    assert_eq!(plan.area, Rect::new(18, 23, 82, 7));
    assert_eq!(plan.title, " name — 1–5/8 ");
    assert_eq!(plan.rows.len(), 5);
    assert_eq!(plan.body_width, 79);
    assert_eq!(plan.rows[0].location.text, " src/main.rs:1  ");
    assert_eq!(plan.rows[0].background, th.selection_bg);
    assert_eq!(plan.rows[1].background, th.selection_bg);
    assert_eq!(plan.rows[2].background, th.chrome_bg);
    assert!(plan.rows[1].snippet[1].style.bold);
    assert_eq!(plan.rows[2].snippet[0].text, "name");
    assert_eq!(plan.rows[2].padding, 79 - 16 - 7);
    assert_eq!(plan.zones.len(), 30 + 1 + 5);
    assert_eq!(plan.zones[30].action, PeekAction::Capture);
    assert_eq!(plan.zones[35].action, PeekAction::Select(4));
    let bar = plan.scrollbar.unwrap();
    assert_eq!((bar.x, bar.thumb), (98, 0..3));
}

#[test]
fn compact_list_names_its_kind_where_all_fits() {
    let screen = Rect::new(0, 0, 100, 30);
    let p = popup(3);
    let plan = plan_compact(&p, screen, (0, 0), 3, 3, "References", None, &dark()).unwrap();
    assert_eq!(plan.title, " name — References (3) ");
    assert!(plan.scrollbar.is_none());
    let tiny = Rect::new(0, 0, 3, 30);
    assert!(plan_compact(&p, tiny, (0, 0), 3, 3, "References", None, &dark()).is_none());
    let none = popup(0);
    assert!(plan_compact(&none, screen, (0, 0), 0, 0, "References", None, &dark()).is_none());
}

#[test]
fn expanded_view_has_a_header_and_two_columns() {
    let host = Rect::new(0, 0, 102, 30);
    let areas = expanded_areas(&popup(3), host, 4).unwrap();
    assert_eq!(areas.area, Rect::new(0, 4, 102, 18));
    assert_eq!(areas.header, Rect::new(1, 5, 100, 1));
    assert_eq!(areas.preview, Rect::new(1, 6, 68, 15));
    assert_eq!(areas.tree, Rect::new(69, 6, 32, 15));
    assert_eq!(close_zone(areas.header).rect, Rect::new(99, 5, 2, 1));
    assert!(expanded_areas(&popup(0), host, 4).is_none());
    assert!(expanded_areas(&popup(3), Rect::new(0, 0, 11, 30), 4).is_none());
}

#[test]
fn columns_share_every_width() {
    for width in 12u16..1200 {
        let host = Rect::new(3, 2, width, 20);
        let areas = expanded_areas(&popup(3), host, 4).unwrap();
        let inner = u32::from(width) - 2;
        let left = (68 * inner + 50) / 100;
        assert_eq!(areas.header, Rect::new(4, areas.area.y + 1, width - 2, 1));
        assert_eq!(areas.preview.x, 4);
        assert_eq!(u32::from(areas.preview.width), left);
        assert_eq!(areas.tree.x, areas.preview.x + areas.preview.width);
        assert_eq!(areas.tree.x + areas.tree.width, 4 + width - 2);
        assert_eq!(areas.preview.y, areas.header.y + 1);
        assert_eq!(areas.preview.height, areas.area.height - 3);
        assert_eq!(areas.tree.height, areas.preview.height);
    }
    let last = Rect::new(0, 65505, 100, 30);
    let areas = expanded_areas(&popup(3), last, 65520).unwrap();
    assert_eq!(areas.preview.height, areas.area.height - 3);
}

#[test]
fn headers_name_the_last_part_of_a_path() {
    let some = |text: &str| Some(text.to_string());
    assert_eq!(header_names("src/a.rs", some("a.rs"), some("src")), ("a.rs".into(), some("src")));
    assert_eq!(header_names("a.rs", some("a.rs"), some("")), ("a.rs".into(), None));
    assert_eq!(header_names("..", None, None), ("..".into(), None));
}

#[test]
fn zones_of_the_list_are_clicked() {
    assert!(matches!(PeekAction::Close.click(), ClickAction::NavCandidatesClose));
    assert!(matches!(PeekAction::Capture.click(), ClickAction::NavCandidatesCapture));
    assert!(matches!(PeekAction::Select(4).click(), ClickAction::NavCandidateSelect(4)));
    assert!(matches!(PeekAction::ToggleGroup(2).click(), ClickAction::NavCandidateGroupToggle(2)));
}

#[test]
fn header_names_the_file_and_the_search() {
    let spans = header_spans(
        &popup(3),
        "a.rs",
        &Some("src".to_string()),
        "References",
        &dark(),
    );
    let texts: Vec<&str> = spans.iter().map(|s| s.text.as_str()).collect();
    assert_eq!(texts, vec![" a.rs", "  src", "  › name — References (3)"]);
}

#[test]
fn tree_lists_places_by_file() {
    let p = popup(5);
    assert_eq!(
        tree_rows(&p),
        vec![
            TreeRow::Group(0),
            TreeRow::Candidate(0),
            TreeRow::Candidate(1),
            TreeRow::Group(1)
        ]
    );
    let rows = plan_tree(&p, Rect::new(70, 7, 30, 14), 4, None, &dark());
    assert_eq!(rows.len(), 4);
    assert_eq!(rows[0].action(), PeekAction::ToggleGroup(0));
    assert_eq!(rows[2].action(), PeekAction::Select(1));
    match &rows[3].content {
        PeekContent::Group { spans, .. } => {
            assert_eq!(spans[0].text, " › b.rs");
            assert_eq!(spans[1].text, "  3");
        }
        PeekContent::Candidate { .. } => panic!("a file was expected"),
    }
    match &rows[2].content {
        PeekContent::Candidate { line, background, snippet, .. } => {
            assert_eq!(line.text, "     2  ");
            assert_eq!(*background, dark().selection_bg);
            assert_eq!(snippet[0].text, "name");
        }
        PeekContent::Group { .. } => panic!("a place was expected"),
    }
}

#[test]
fn previews_are_centred_once() {
    let mut preview = PeekPreview { target: None, scroll: 0, max_scroll: 0 };
    let area = Rect::new(1, 7, 68, 10);
    let plan = preview.plan_document("a.rs", &location(None, 98, "x"), 100, area);
    assert_eq!((preview.scroll, preview.max_scroll), (90, 90));
    assert_eq!(plan.rows.len(), 10);
    assert_eq!(plan.rows[0].gutter, " 91 ");
    assert_eq!(plan.rows[9].gutter, "100 ");
    assert!(plan.rows[8].marked && !plan.rows[7].marked);
    assert_eq!(plan.content_width, 68 - 4 - 1);
    assert_eq!(plan.scrollbar.unwrap().thumb, 9..10);
    preview.scroll = 3;
    let again = preview.plan_document("a.rs", &location(None, 98, "x"), 100, area);
    assert_eq!(again.rows[0].line, 3);
    let other = preview.plan_document("b.rs", &location(None, 98, "x"), 4, area);
    assert_eq!(preview.scroll, 0);
    assert_eq!(other.rows.len(), 4);
    assert!(other.scrollbar.is_none());
}

#[test]
fn previews_say_why_there_is_no_code() {
    assert_eq!(preview_choice(true, true, false, false), PreviewChoice::Document);
    assert_eq!(preview_choice(true, false, true, true), PreviewChoice::NotText);
    assert_eq!(preview_choice(false, true, true, true), PreviewChoice::Loading);
    assert_eq!(preview_choice(false, true, false, true), PreviewChoice::Failure);
    assert_eq!(preview_choice(false, true, false, false), PreviewChoice::Unavailable);
    assert_eq!(message_row(Rect::new(1, 2, 30, 9)), Some(Rect::new(1, 6, 30, 1)));
    assert_eq!(message_row(Rect::new(1, 2, 30, 0)), None);
}

#[test]
fn viewport_is_reconciled_on_change() {
    let mut view = PeekViewport { visible_rows: 0, reconciled: None };
    assert_eq!(view.reconcile(2, 5), Some(5));
    assert_eq!(view.reconcile(2, 5), None);
    assert_eq!(view.reconcile(3, 5), Some(5));
    assert_eq!(view.reconcile(3, 0), Some(1));
    assert_eq!(view.visible_rows, 1);
}
