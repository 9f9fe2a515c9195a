use reef_tui::input::drops::{
    dropped_candidates, hex_digit, keep_found, normalize_token, parse_dropped_paths, shell_tokenize,
    url_decode,
};
use tempfile::{Builder, NamedTempFile, TempDir};

/// A file with this name in a directory of its own.
fn touch(dir: &TempDir, name: &str) -> (NamedTempFile, String) {
    let file = Builder::new().prefix(name).rand_bytes(0).tempfile_in(dir.path()).unwrap();
    let path = file.path().to_string_lossy().to_string();
    (file, path)
}

#[test]
fn non_path_text_is_not_a_drop() {
    assert!(parse_dropped_paths("settings.json").is_empty());
    assert!(parse_dropped_paths("let x = 1;").is_empty());
    assert!(parse_dropped_paths("").is_empty());
}

#[test]
fn relative_paths_rejected_even_if_they_exist() {
    assert!(parse_dropped_paths("src/main.rs").is_empty());
}

#[test]
fn plain_absolute_path_is_accepted() {
    let tmp = TempDir::new().unwrap();
    let (_file, path) = touch(&tmp, "a.txt");
    assert_eq!(parse_dropped_paths(&path), vec![path]);
}

#[test]
fn file_uri_is_decoded_and_accepted() {
    let tmp = TempDir::new().unwrap();
    let (_file, path) = touch(&tmp, "hello world.txt");
    let uri = format!("file://{}", path.replace(' ', "%20"));
    assert_eq!(parse_dropped_paths(&uri), vec![path]);
}

#[test]
fn single_quoted_iterm2_style() {
    let tmp = TempDir::new().unwrap();
    let (_file, path) = touch(&tmp, "quoted.txt");
    let paste = format!("'{}'", path);
    assert_eq!(parse_dropped_paths(&paste), vec![path]);
}

#[test]
fn backslash_escaped_spaces() {
    let tmp = TempDir::new().unwrap();
    let (_file, path) = touch(&tmp, "name with space.txt");
    let escaped = path.replace(' ', "\\ ");
    assert_eq!(parse_dropped_paths(&escaped), vec![path]);
}

#[test]
fn multi_file_newline_separated() {
    let tmp = TempDir::new().unwrap();
    let (_a, a) = touch(&tmp, "a.txt");
    let (_b, b) = touch(&tmp, "b.txt");
    let paste = format!("{}\n{}", a, b);
    assert_eq!(parse_dropped_paths(&paste), vec![a, b]);
}

#[test]
fn trailing_newline_tolerated() {
    let tmp = TempDir::new().unwrap();
    let (_file, path) = touch(&tmp, "a.txt");
    let paste = format!("{}\n", path);
    assert_eq!(parse_dropped_paths(&paste), vec![path]);
}

#[test]
fn non_existent_absolute_path_rejected() {
    assert!(parse_dropped_paths("/this/does/not/exist/abc.xyz").is_empty());
}

#[test]
fn mixed_valid_and_invalid_keeps_only_valid() {
    let tmp = TempDir::new().unwrap();
    let (_file, path) = touch(&tmp, "ok.txt");
    let paste = format!("{}\n/nope/nope/nope", path);
    assert_eq!(parse_dropped_paths(&paste), vec![path]);
}

#[test]
fn file_localhost_prefix_stripped() {
    let tmp = TempDir::new().unwrap();
    let (_file, path) = touch(&tmp, "loc.txt");
    let paste = format!("file://localhost{}", path);
    assert_eq!(parse_dropped_paths(&paste), vec![path]);
}

#[test]
fn multi_file_iterm2_single_quoted_space_separated() {
    let tmp = TempDir::new().unwrap();
    let (_a, a) = touch(&tmp, "a.txt");
    let (_b, b) = touch(&tmp, "b.txt");
    let paste = format!("'{}' '{}'", a, b);
    assert_eq!(parse_dropped_paths(&paste), vec![a, b]);
}

#[test]
fn multi_file_ghostty_backslash_escaped_space_separated() {
    let tmp = TempDir::new().unwrap();
    let (_a, a) = touch(&tmp, "a b.txt");
    let (_c, c) = touch(&tmp, "c.txt");
    let paste = format!("{} {}", a.replace(' ', "\\ "), c);
    assert_eq!(parse_dropped_paths(&paste), vec![a, c]);
}

#[test]
fn multi_file_mixed_newline_and_space() {
    let tmp = TempDir::new().unwrap();
    let (_a, a) = touch(&tmp, "a.txt");
    let (_b, b) = touch(&tmp, "b.txt");
    let (_c, c) = touch(&tmp, "c.txt");
    let paste = format!("{} {}\n{}", a, b, c);
    assert_eq!(parse_dropped_paths(&paste), vec![a, b, c]);
}

#[test]
fn quoted_path_with_intra_space_stays_single_token() {
    let tmp = TempDir::new().unwrap();
    let (_file, path) = touch(&tmp, "hello world.txt");
    let paste = format!("'{}'", path);
    assert_eq!(parse_dropped_paths(&paste), vec![path]);
}

#[test]
fn words_are_split_as_a_shell_would() {
    assert_eq!(shell_tokenize("a b\tc\n d"), vec!["a", "b", "c", "d"]);
    assert_eq!(shell_tokenize("'a b' \"c d\""), vec!["a b", "c d"]);
    assert_eq!(shell_tokenize("a\\ b"), vec!["a b"]);
    assert_eq!(shell_tokenize("  "), Vec::<String>::new());
    assert_eq!(shell_tokenize("x\u{a0}y"), vec!["x", "y"]);
}

#[test]
fn urls_are_decoded() {
    assert_eq!(url_decode("a%20b"), "a b");
    assert_eq!(url_decode("100%"), "100%");
    assert_eq!(url_decode("%zz"), "%zz");
    assert_eq!(url_decode("%41%62"), "Ab");
    assert_eq!(url_decode("/tmp/é"), "/tmp/é");
    assert_eq!(url_decode("/tmp/%C3%A9"), "/tmp/é");
    assert_eq!(url_decode("%e9%41"), "\u{FFFD}A");
    assert_eq!(hex_digit(b'F'), Some(15));
    assert_eq!(hex_digit(b'g'), None);
}

#[test]
fn file_urls_become_paths() {
    assert_eq!(normalize_token(&"file:///a%20b".to_string()), Some("/a b".to_string()));
    assert_eq!(normalize_token(&"file://localhost/x".to_string()), Some("/x".to_string()));
    assert_eq!(normalize_token(&"/x y".to_string()), Some("/x y".to_string()));
    assert_eq!(normalize_token(&"".to_string()), None);
    assert_eq!(normalize_token(&"file://localhost".to_string()), None);
    assert_eq!(dropped_candidates("/a 'b c'"), vec!["/a", "b c"]);
}

#[test]
fn non_ascii_addresses_lead_to_their_file() {
    let dir = TempDir::new().unwrap();
    let file = Builder::new().prefix("é").suffix(".txt").tempfile_in(dir.path()).unwrap();
    let name = file.path().to_string_lossy().to_string();
    let address = format!("file://{name}");
    assert_eq!(parse_dropped_paths(&address), vec![name]);
}

#[test]
fn lines_with_an_open_quote_end_at_the_line_break() {
    assert_eq!(dropped_candidates("'a b\nc"), vec!["a b", "c"]);
    assert_eq!(dropped_candidates("a\n \n\nb\n"), vec!["a", "b"]);
    assert!(dropped_candidates(" \n\t\n").is_empty());
}

#[test]
fn only_absolute_paths_that_were_found_are_kept() {
    let paths = vec!["/a".to_string(), "/b".to_string(), "c".to_string(), "d".to_string()];
    let kept = keep_found(&paths, &vec![true, true, false, false], &vec![true, false, true, false]);
    assert_eq!(kept, vec!["/a"]);
}

#[test]
fn every_white_space_separates_words() {
    for c in '\0'..=char::MAX {
        if matches!(c, '\\' | '\'' | '"') {
            continue;
        }
        let white = matches!(
            c,
            '\t'..='\r'
                | ' '
                | '\u{85}'
                | '\u{a0}'
                | '\u{1680}'
                | '\u{2000}'..='\u{200a}'
                | '\u{2028}'..='\u{2029}'
                | '\u{202f}'
                | '\u{205f}'
                | '\u{3000}'
        );
        let words = shell_tokenize(&format!("a{c}b")).len();
        assert_eq!(words, if white { 2 } else { 1 }, "{:?}", c);
    }
}
