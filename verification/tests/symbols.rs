use agent_lsp::location::{list_locations, LocationDisplay};
use agent_lsp::lookups::{
    find_references, go_to_definition, hover, Hover, HoverBlock, HoverBlockKind, HoverEvent,
    LookupAction, LookupEvent,
};
use agent_lsp::search::{
    byte_offset, contains_every_word, count_matches, count_places, find_from, trim,
};
use agent_lsp::snapshot::TextSnapshot;
use agent_lsp::symbol::{
    find_in_char_iter, ResolveAction, ResolveEvent, SymbolLocator, MAX_LINE_DISPLAY_LEN,
};
use agent_lsp::text::{ascii_lowercase, decimal_text, signed_decimal_text};

fn chars(s: &str) -> Vec<char> {
    s.chars().collect()
}

fn locator(line: u32, name: &str) -> SymbolLocator {
    SymbolLocator::new("src/lib.rs".to_string(), line, name.to_string())
}

fn lookup_text(action: LookupAction) -> Result<String, String> {
    match action {
        LookupAction::Finish(result) => result,
        _ => panic!("the lookup has not ended"),
    }
}

#[test]
fn numbers_are_written_in_decimal() {
    assert_eq!(decimal_text(0), "0");
    assert_eq!(decimal_text(1907), "1907");
    assert_eq!(decimal_text(u64::MAX), "18446744073709551615");
    assert_eq!(signed_decimal_text(-32602), "-32602");
    assert_eq!(signed_decimal_text(i32::MIN), "-2147483648");
    assert_eq!(signed_decimal_text(7), "7");
}

#[test]
fn only_ascii_capitals_are_lowered() {
    assert_eq!(ascii_lowercase("WarnÄß9"), "warnÄß9");
}

#[test]
fn occurrences_are_found_and_counted() {
    assert_eq!(find_from(&chars("banana"), &chars("ana"), 0), Some(1));
    assert_eq!(find_from(&chars("banana"), &chars("ana"), 2), Some(3));
    assert_eq!(find_from(&chars("banana"), &chars("nab"), 0), None);
    assert_eq!(count_places(&chars("banana"), &chars("ana")), 2);
    assert_eq!(count_matches(&chars("banana"), &chars("ana")), 1);
    assert_eq!(count_matches(&chars("banana"), &chars("an")), 2);
    assert_eq!(count_places(&chars("banana"), &chars("b")), 1);
    assert_eq!(count_places(&chars("banana"), &chars("x")), 0);
}

#[test]
fn offsets_count_utf8_bytes() {
    assert_eq!(byte_offset(&chars("aß日𝄞z"), 0), 0);
    assert_eq!(byte_offset(&chars("aß日𝄞z"), 4), 10);
    assert_eq!(byte_offset(&chars("aß日𝄞z"), 5), 11);
}

#[test]
fn white_space_is_trimmed_and_words_are_sought() {
    assert_eq!(trim(&chars(" \t a b\u{a0}\n")), chars("a b"));
    for space in ['\u{85}', '\u{1680}', '\u{2000}', '\u{200a}', '\u{2028}', '\u{2029}'] {
        assert_eq!(trim(&[space, 'a', space]), vec!['a']);
    }
    for space in ['\u{202f}', '\u{205f}', '\u{3000}'] {
        assert_eq!(trim(&[space, 'a', space]), vec!['a']);
    }
    assert_eq!(trim(&['\u{200b}', '\u{180e}']), vec!['\u{200b}', '\u{180e}']);
    assert!(contains_every_word(&chars("function parse_path"), &chars("  path parse ")));
    assert!(!contains_every_word(&chars("function parse_path"), &chars("path paths")));
    assert!(contains_every_word(&chars("anything"), &chars("")));
}

#[test]
fn rows_of_a_text() {
    let snapshot = TextSnapshot::new("one\n\nthrée\n");
    assert_eq!(snapshot.max_row(), 3);
    assert_eq!(snapshot.row(2), chars("thrée").as_slice());
    assert_eq!(snapshot.line_len(2), 6);
    assert_eq!(snapshot.rows_text(0, 3), "one\n\nthrée\n");
    assert_eq!(snapshot.rows_text(1, 2), "\nthrée");
    assert_eq!(TextSnapshot::new("").max_row(), 0);
}

#[test]
fn needles_are_found_by_byte_offset() {
    assert_eq!(find_in_char_iter(&chars("let größe = größe;"), "größe"), Some(4));
    assert_eq!(find_in_char_iter(&chars("日本 x"), "x"), Some(7));
    assert_eq!(find_in_char_iter(&chars("abc"), ""), Some(0));
    assert_eq!(find_in_char_iter(&chars("abc"), "abcd"), None);
}

#[test]
fn symbols_are_located() {
    let snapshot = TextSnapshot::new("fn main() {\n    let größe = größe();  \n}");
    let symbol = locator(2, "größe").locate(&snapshot).ok().unwrap();
    assert_eq!((symbol.row, symbol.column), (1, 8));
    assert_eq!(symbol.line_text, "let größe = größe();");
    assert!(!symbol.truncated);
    let first = locator(0, "main").locate(&snapshot).ok().unwrap();
    assert_eq!((first.row, first.column), (0, 3));
}

#[test]
fn symbols_that_are_not_there_are_explained() {
    let snapshot = TextSnapshot::new("a\n  b");
    assert_eq!(
        locator(3, "a").locate(&snapshot).err().unwrap(),
        "Line 3 is beyond the end of 'src/lib.rs' (file has 2 lines)"
    );
    assert_eq!(
        locator(2, "c").locate(&snapshot).err().unwrap(),
        "Could not find symbol 'c' on line 2 of 'src/lib.rs'. Line content: b"
    );
}

#[test]
fn long_lines_are_truncated() {
    let line = format!("  x{}", "y".repeat(300));
    let symbol = locator(1, "x").locate(&TextSnapshot::new(&line)).ok().unwrap();
    assert_eq!(symbol.line_text.len(), MAX_LINE_DISPLAY_LEN);
    assert!(symbol.truncated);
}

#[test]
fn resolving_goes_from_path_to_symbol() {
    let symbol = locator(1, "a");
    assert!(matches!(
        symbol.resolve(ResolveEvent::PathSearched { found: true }),
        ResolveAction::OpenBuffer
    ));
    assert!(matches!(
        symbol.resolve(ResolveEvent::PathSearched { found: false }),
        ResolveAction::Finish(Err(e)) if e == "Could not find path 'src/lib.rs' in project"
    ));
    assert!(matches!(
        symbol.resolve(ResolveEvent::Opened(Ok(()))),
        ResolveAction::AcquireAndRead
    ));
    assert!(matches!(
        symbol.resolve(ResolveEvent::Opened(Err("denied".to_string()))),
        ResolveAction::Finish(Err(e)) if e == "Failed to open 'src/lib.rs': denied"
    ));
    assert!(matches!(
        symbol.resolve(ResolveEvent::Read(TextSnapshot::new("a"))),
        ResolveAction::Finish(Ok(s)) if s.row == 0 && s.column == 0
    ));
}

#[test]
fn places_are_shown_with_a_snippet() {
    let snapshot = TextSnapshot::new("one\n   two  \nthree");
    let place = LocationDisplay::from_location(Some("a.rs".to_string()), &snapshot, 1, 1);
    assert_eq!(place.to_text(), "a.rs#L2\n```\ntwo\n```");
    let range = LocationDisplay::from_location(None, &snapshot, 0, 2);
    assert_eq!(range.to_text(), "<untitled>#L1-3\n```\none\n```");
    let long = LocationDisplay::from_location(None, &TextSnapshot::new(&"z".repeat(201)), 0, 0);
    assert_eq!(
        long.to_text(),
        format!("<untitled>#L1 (truncated)\n```\n{}\n```", "z".repeat(200))
    );
    assert_eq!(
        list_locations(&vec![place]),
        "\n## a.rs#L2\n```\ntwo\n```\n"
    );
}

#[test]
fn references_are_listed() {
    let symbol = locator(1, "foo");
    assert!(matches!(
        find_references(&symbol, LookupEvent::Resolved(Ok(()))),
        LookupAction::CheckServer
    ));
    assert!(matches!(
        find_references(&symbol, LookupEvent::ServerChecked(true)),
        LookupAction::Query
    ));
    let snapshot = TextSnapshot::new("foo();");
    let place = LocationDisplay::from_location(Some("b.rs".to_string()), &snapshot, 0, 0);
    assert_eq!(
        lookup_text(find_references(&symbol, LookupEvent::Answered(Ok(Some(vec![place]))))),
        Ok("Found 1 references to `foo`:\n\n## b.rs#L1\n```\nfoo();\n```\n".to_string())
    );
    assert_eq!(
        lookup_text(find_references(&symbol, LookupEvent::Answered(Ok(Some(vec![]))))),
        Ok("No references found for 'foo'.".to_string())
    );
    assert_eq!(
        lookup_text(find_references(&symbol, LookupEvent::Answered(Err("boom".to_string())))),
        Err("Find references failed: boom".to_string())
    );
    assert_eq!(
        lookup_text(find_references(&symbol, LookupEvent::Resolved(Err("gone".to_string())))),
        Err("gone".to_string())
    );
}

#[test]
fn definitions_are_listed() {
    let symbol = locator(1, "foo");
    let snapshot = TextSnapshot::new("fn foo() {}");
    let place = LocationDisplay::from_location(Some("c.rs".to_string()), &snapshot, 0, 0);
    assert_eq!(
        lookup_text(go_to_definition(&symbol, LookupEvent::Answered(Ok(Some(vec![place]))))),
        Ok("Definition of `foo`:\n\n## c.rs#L1\n```\nfn foo() {}\n```\n".to_string())
    );
    let two = vec![
        LocationDisplay::from_location(None, &snapshot, 0, 0),
        LocationDisplay::from_location(None, &snapshot, 0, 0),
    ];
    assert!(lookup_text(go_to_definition(&symbol, LookupEvent::Answered(Ok(Some(two)))))
        .unwrap()
        .starts_with("Found 2 definitions of `foo`:\n"));
    assert_eq!(
        lookup_text(go_to_definition(&symbol, LookupEvent::Answered(Ok(None)))),
        Ok("No language server capable of resolving definitions is available for `src/lib.rs`."
            .to_string())
    );
    assert!(lookup_text(go_to_definition(&symbol, LookupEvent::ServerChecked(false)))
        .unwrap()
        .starts_with("No language server is running for `src/lib.rs`."));
}

#[test]
fn hover_blocks_are_joined() {
    let symbol = locator(7, "foo");
    let hovers = vec![
        Hover { contents: vec![], is_empty: true },
        Hover {
            contents: vec![
                HoverBlock {
                    kind: HoverBlockKind::Code { language: "rust".to_string() },
                    text: "fn foo()".to_string(),
                },
                HoverBlock { kind: HoverBlockKind::Markdown, text: "Does it.\n".to_string() },
                HoverBlock { kind: HoverBlockKind::PlainText, text: "Yes".to_string() },
            ],
            is_empty: false,
        },
    ];
    assert_eq!(
        lookup_text(hover(&symbol, HoverEvent::Answered(Some(hovers)))),
        Ok("Hover info for `foo`:\n\n```rust\nfn foo()\n```\n\nDoes it.\n\nYes\n".to_string())
    );
    let nothing = "No hover information available for 'foo' at src/lib.rs:7.".to_string();
    assert_eq!(lookup_text(hover(&symbol, HoverEvent::Answered(None))), Ok(nothing));
    assert!(lookup_text(hover(&symbol, HoverEvent::ServerChecked(false)))
        .unwrap()
        .ends_with("before requesting hover info."));
}
