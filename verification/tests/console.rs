use eucalyptus::console::{analyse_error, editor_location, parse_compiler_location, ErrorLevel};

#[test]
fn parses_error_location() {
    let (l, p, loc) =
        parse_compiler_location("  e: file:///home/me/src/Main.kt:12:5 Unresolved reference").unwrap();
    assert_eq!(l, ErrorLevel::Error);
    assert_eq!(p, "home/me/src/Main.kt");
    assert_eq!(loc, "12:5");
}

#[test]
fn parses_warning_with_colons_in_path() {
    let (l, p, loc) = parse_compiler_location("w: file:///C:/proj/a.kt:3:9").unwrap();
    assert_eq!(l, ErrorLevel::Warn);
    assert_eq!(p, "C:/proj/a.kt");
    assert_eq!(loc, "3:9");
}

#[test]
fn rejects_other_lines() {
    assert!(parse_compiler_location("BUILD SUCCESSFUL").is_none());
    assert!(parse_compiler_location("e: file:///only:one").is_none());
    assert!(parse_compiler_location("e: file:///   ").is_none());
    assert!(parse_compiler_location("x e: file:///a:1:2").is_none());
}

#[test]
fn analyse_build_log() {
    let log = vec![
        "The required library foo was not found".to_string(),
        "e: file:///a/b.kt:1:2 boom".to_string(),
        "nothing".to_string(),
        "w: file:///c.kt:3:4 The required library".to_string(),
    ];
    let items = analyse_error(&log);
    assert_eq!(items.len(), 4);
    assert_eq!(items[0].error_level, ErrorLevel::Error);
    assert!(items[0].file_location.is_none());
    assert_eq!(items[1].file_location.as_deref(), Some("a/b.kt"));
    assert_eq!(items[1].line_ref.as_deref(), Some("1:2"));
    assert_eq!(items[2].msg, log[3]);
    assert_eq!(items[2].error_level, ErrorLevel::Error);
    assert_eq!(items[3].error_level, ErrorLevel::Warn);
    assert!(items.iter().all(|i| i.id == 1));
    assert_eq!(editor_location(&items[1]).as_deref(), Some("a/b.kt:1:2"));
    assert_eq!(editor_location(&items[0]), None);
}
