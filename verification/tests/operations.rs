use std::collections::HashMap;

use agent_lsp::changes::{
    format_document, rename_symbol, FormatAction, FormatEvent, FormattedBuffer, RenameAction,
    RenameEvent,
};
use agent_lsp::code_actions::{
    apply_code_action, get_code_actions, ApplyAction, ApplyEvent, CodeAction, CodeActionStore,
    CodeActionsAction, CodeActionsEvent, CodeActionsOutput, PendingCodeActions,
};
use agent_lsp::diagnostics::{
    diagnostics, diagnostics_freshness_message, parse_min_severity, severity_label, severity_rank,
    Diagnostic, DiagnosticGroup, DiagnosticSeverity, DiagnosticsAction, DiagnosticsEvent, FileSummary,
};
use agent_lsp::edits::{
    build_diffs_from_touched_buffers, snapshot_open_buffer_texts, EditDiff, EditOperationOutput,
    EditOutput, OpenBufferText, TouchedBuffer, TouchedBuffers,
};
use agent_lsp::lease::LspBufferLease;
use agent_lsp::servers::{
    buffer_has_running_language_server, list_language_servers, restart_language_server,
    RestartAction, ServerStatus,
};
use agent_lsp::symbol::SymbolLocator;
use agent_lsp::workspace_symbols::{
    symbol_matches_query, workspace_symbol, Symbol, SymbolLocation, SymbolSearchAction,
    SymbolSearchEvent,
};

fn locator() -> SymbolLocator {
    SymbolLocator::new("src/lib.rs".to_string(), 1, "old".to_string())
}

fn touched(id: u64, path: &str, text: &str) -> TouchedBuffer {
    TouchedBuffer {
        id,
        path: Some(path.to_string()),
        abs_path: Some(format!("/w/{path}")),
        text: text.to_string(),
    }
}

fn edited(result: Result<EditOperationOutput, String>) -> EditOutput {
    match result {
        Ok(EditOperationOutput::Edited(output)) => output,
        _ => panic!("nothing was edited"),
    }
}

fn failed(result: Result<EditOperationOutput, String>) -> String {
    match result {
        Err(error) => error,
        _ => panic!("no failure"),
    }
}

fn said(result: Result<EditOperationOutput, String>) -> String {
    match result {
        Ok(EditOperationOutput::Text(text)) => text,
        _ => panic!("no text"),
    }
}

fn renamed(event: RenameEvent) -> Result<EditOperationOutput, String> {
    match rename_symbol(&locator(), "new", event) {
        RenameAction::Finish(result) => result,
        _ => panic!("the rename has not ended"),
    }
}

fn formatted(event: FormatEvent) -> Result<EditOperationOutput, String> {
    match format_document("a.rs", event) {
        FormatAction::Finish(result) => result,
        _ => panic!("the formatting has not ended"),
    }
}

fn applied(index: u32, event: ApplyEvent) -> Result<EditOperationOutput, String> {
    match apply_code_action(index, &list(&["Import", "Inline"]), event) {
        ApplyAction::Finish(result) => result,
        _ => panic!("the application has not ended"),
    }
}

fn list(titles: &[&str]) -> PendingCodeActions {
    PendingCodeActions {
        actions: titles.iter().map(|t| CodeAction { title: t.to_string() }).collect(),
        buffer_id: 4,
    }
}

#[test]
fn diffs_list_the_primary_buffer_first() {
    let before = snapshot_open_buffer_texts(vec![
        OpenBufferText { id: 1, text: "a0".to_string() },
        OpenBufferText { id: 2, text: "b0".to_string() },
    ]);
    let diffs = build_diffs_from_touched_buffers(
        vec![touched(1, "a", "a1"), touched(3, "c", "c1"), touched(2, "b", "b1")],
        Some(2),
        &before,
    );
    let paths: Vec<&str> = diffs.iter().map(|d| d.path.as_str()).collect();
    assert_eq!(paths, ["b", "c", "a"]);
    assert_eq!(diffs[0].old_text, "b0");
    assert_eq!(diffs[0].new_text, "b1");
    assert_eq!(diffs[0].abs_path, "/w/b");
    assert_eq!(diffs[0].line, None);
    assert_eq!(diffs[1].old_text, "");
    let untitled = TouchedBuffer { id: 9, path: None, abs_path: None, text: String::new() };
    let diffs = build_diffs_from_touched_buffers(vec![untitled], None, &before);
    assert_eq!((diffs[0].path.as_str(), diffs[0].abs_path.as_str()), ("<untitled>", ""));
}

#[test]
fn texts_are_remembered_by_id() {
    let texts = snapshot_open_buffer_texts(vec![
        OpenBufferText { id: 1, text: "x".to_string() },
        OpenBufferText { id: 1, text: "y".to_string() },
    ]);
    assert_eq!(texts, HashMap::from([(1, "y".to_string())]));
}

#[test]
fn renames_list_the_changed_files() {
    let saved = TouchedBuffers {
        buffers: vec![touched(1, "a.rs", "new"), touched(2, "b.rs", "new")],
        before: HashMap::new(),
    };
    let output = edited(renamed(RenameEvent::Saved { starting_buffer: 2, saved: Ok(saved) }));
    assert_eq!(output.text, "Renamed `old` to `new` in 2 file(s):\n- b.rs\n- a.rs\n");
    assert_eq!(output.diffs.len(), 2);
    assert_eq!(
        said(renamed(RenameEvent::Renamed(Ok(vec![])))),
        "No changes were made. The language server could not rename 'old'."
    );
    assert!(matches!(
        rename_symbol(&locator(), "new", RenameEvent::ServerChecked(true)),
        RenameAction::Perform { new_name } if new_name == "new"
    ));
    assert!(matches!(
        rename_symbol(&locator(), "new", RenameEvent::Renamed(Ok(vec![1, 2]))),
        RenameAction::Save { buffers } if buffers == [1, 2]
    ));
    assert_eq!(
        failed(renamed(RenameEvent::Renamed(Err("no".to_string())))),
        "Rename failed: no"
    );
    let unsaved = RenameEvent::Saved { starting_buffer: 2, saved: Err("full".to_string()) };
    assert_eq!(
        failed(renamed(unsaved)),
        "Rename succeeded, but failed to save renamed files: full"
    );
}

#[test]
fn formatting_is_saved_and_shown() {
    let buffer = || FormattedBuffer {
        id: 5,
        abs_path: None,
        old_text: "a ".to_string(),
        new_text: "a".to_string(),
        touched: 1,
    };
    assert!(matches!(
        format_document("a.rs", FormatEvent::Formatted(Ok(buffer()))),
        FormatAction::Save(formatted) if formatted.id == 5 && formatted.new_text == "a"
    ));
    let output = edited(formatted(FormatEvent::Saved { formatted: buffer(), saved: Ok(()) }));
    assert_eq!(output.text, "Formatted `a.rs` and saved to disk (1 buffer(s) touched).");
    assert_eq!(output.diffs[0].abs_path, "");
    assert_eq!(output.diffs[0].old_text, "a ");
    assert_eq!(output.diffs[0].new_text, "a");
    assert_eq!(
        failed(formatted(FormatEvent::PathSearched { found: false })),
        "Could not find path 'a.rs' in project"
    );
    assert_eq!(
        failed(formatted(FormatEvent::Formatted(Err("bad".to_string())))),
        "Format failed for 'a.rs': bad"
    );
    let unsaved = FormatEvent::Saved { formatted: buffer(), saved: Err("full".to_string()) };
    assert_eq!(
        failed(formatted(unsaved)),
        "Format applied in-memory but save failed: full"
    );
}

#[test]
fn code_actions_are_numbered_and_kept() {
    let event = CodeActionsEvent::Listed {
        actions: Ok(Some(list(&["Import", "Inline"]).actions)),
        buffer_id: 4,
    };
    let output = match get_code_actions(&locator(), "lsp_apply_code_action", event) {
        CodeActionsAction::Finish(Ok(output)) => output,
        _ => panic!("no list"),
    };
    assert_eq!(
        output.text,
        "Found 2 code action(s):\n1. Import\n2. Inline\n\nUse `lsp_apply_code_action` with the number of the action you want to apply."
    );
    assert_eq!(output.pending.as_ref().unwrap().buffer_id, 4);
    let mut store = CodeActionStore::new();
    store.keep(output);
    assert_eq!(store.pending.as_ref().unwrap().actions[1].title, "Inline");
    let empty = CodeActionsEvent::Listed { actions: Ok(Some(vec![])), buffer_id: 4 };
    let output = match get_code_actions(&locator(), "x", empty) {
        CodeActionsAction::Finish(Ok(output)) => output,
        _ => panic!("no answer"),
    };
    assert_eq!(output.text, "No code actions available for 'old' at this location.");
    assert_eq!(store.keep(output), "No code actions available for 'old' at this location.");
    assert!(store.pending.is_none());
}

#[test]
fn a_list_survives_a_failed_application() {
    let mut store = CodeActionStore::new();
    assert_eq!(store.lend("nothing").err().unwrap(), "nothing");
    store.keep(CodeActionsOutput { text: String::new(), pending: Some(list(&["Import"])) });
    let lent = store.lend("nothing").ok().unwrap();
    assert!(store.pending.is_none());
    store.settle(lent, false);
    assert_eq!(store.pending.as_ref().unwrap().actions.len(), 1);
    let lent = store.lend("nothing").ok().unwrap();
    store.settle(lent, true);
    assert!(store.pending.is_none());
    store.keep(CodeActionsOutput { text: String::new(), pending: Some(list(&["One"])) });
    let lent = store.lend("nothing").ok().unwrap();
    store.keep(CodeActionsOutput { text: String::new(), pending: Some(list(&["Two"])) });
    store.settle(lent, false);
    assert_eq!(store.pending.as_ref().unwrap().actions[0].title, "Two");
}

#[test]
fn code_actions_are_applied_by_number() {
    assert_eq!(failed(applied(0, ApplyEvent::Requested)), "Index must be 1 or greater.");
    assert_eq!(
        failed(applied(3, ApplyEvent::Requested)),
        "Index 3 is out of range. There were 2 code action(s) available."
    );
    let pending = list(&["Import", "Inline"]);
    for number in [1, 2] {
        match apply_code_action(number, &pending, ApplyEvent::Requested) {
            ApplyAction::Perform { index, buffer_id } => {
                assert_eq!((index as u32 + 1, buffer_id), (number, 4));
            }
            _ => panic!("nothing is applied"),
        }
    }
    assert!(matches!(
        apply_code_action(2, &pending, ApplyEvent::Applied(Ok(vec![7]))),
        ApplyAction::Save { buffers } if buffers == [7]
    ));
    assert_eq!(
        said(applied(2, ApplyEvent::Applied(Ok(vec![])))),
        "Code action 'Inline' was applied but produced no changes."
    );
    let saved = TouchedBuffers {
        buffers: vec![touched(1, "a.rs", "x"), touched(4, "b.rs", "x")],
        before: HashMap::from([(4, "y".to_string())]),
    };
    let output = edited(applied(1, ApplyEvent::Saved(Ok(saved))));
    assert_eq!(output.text, "Applied code action 'Import'. Modified 2 file(s):\n- b.rs\n- a.rs\n");
    assert_eq!(output.diffs[0].old_text, "y");
    assert_eq!(
        failed(applied(1, ApplyEvent::Applied(Err("no".to_string())))),
        "Failed to apply code action 'Import': no"
    );
    assert_eq!(
        failed(applied(1, ApplyEvent::Saved(Err("full".to_string())))),
        "Code action 'Import' applied but saving touched files failed: full"
    );
}

#[test]
fn severities_have_names_and_ranks() {
    assert_eq!(parse_min_severity(None), Ok(DiagnosticSeverity::Warning));
    assert_eq!(parse_min_severity(Some("ERROR")), Ok(DiagnosticSeverity::Error));
    assert_eq!(parse_min_severity(Some("Info")), Ok(DiagnosticSeverity::Information));
    assert_eq!(parse_min_severity(Some("hint")), Ok(DiagnosticSeverity::Hint));
    assert_eq!(
        parse_min_severity(Some("Lo\"ud")),
        Err("invalid min_severity \"lo\\\"ud\"; expected one of: error, warning, information, hint"
            .to_string())
    );
    let plain = " !#$%&()*+,-./09:;<=>?@[]^_`az{|}~";
    assert_eq!(
        parse_min_severity(Some(plain)),
        Err(format!(
            "invalid min_severity \"{plain}\"; expected one of: error, warning, information, hint"
        ))
    );
    assert_eq!(severity_rank(DiagnosticSeverity::Error), 0);
    assert_eq!(severity_rank(DiagnosticSeverity::Hint), 3);
    assert_eq!(severity_rank(DiagnosticSeverity::Unknown), 255);
    assert_eq!(severity_label(DiagnosticSeverity::Information), Some("information"));
    assert_eq!(severity_label(DiagnosticSeverity::Unknown), None);
    assert_eq!(diagnostics_freshness_message(true), "Diagnostics successfully refreshed.");
}

fn entry(severity: DiagnosticSeverity, row: u32, message: &str) -> Diagnostic {
    Diagnostic { severity, row, message: message.to_string() }
}

fn diagnosis(action: DiagnosticsAction) -> Result<String, String> {
    match action {
        DiagnosticsAction::Finish(result) => result,
        _ => panic!("the request has not ended"),
    }
}

#[test]
fn diagnostics_of_a_file_are_filtered_by_severity() {
    let path = Some("a.rs".to_string());
    let pulled = |refreshed| DiagnosticsEvent::FilePulled {
        refreshed,
        running: true,
        groups: vec![
            DiagnosticGroup {
                entries: vec![
                    entry(DiagnosticSeverity::Hint, 7, "declared here"),
                    entry(DiagnosticSeverity::Error, 0, "bad"),
                ],
                primary_ix: 1,
            },
            DiagnosticGroup {
                entries: vec![entry(DiagnosticSeverity::Hint, 4, "unused")],
                primary_ix: 0,
            },
        ],
    };
    assert_eq!(
        diagnosis(diagnostics(&path, &None, pulled(true))),
        Ok("Diagnostics successfully refreshed.\n\nerror at line 1: bad\n".to_string())
    );
    assert_eq!(
        diagnosis(diagnostics(&path, &Some("hint".to_string()), pulled(false))),
        Ok("Failed to refresh diagnostics. Diagnostics may be stale.\n\nerror at line 1: bad\nhint at line 5: unused\n".to_string())
    );
    let clean = DiagnosticsEvent::FilePulled { refreshed: true, running: true, groups: vec![] };
    assert_eq!(
        diagnosis(diagnostics(&path, &None, clean)),
        Ok("Diagnostics successfully refreshed.\n\nFile doesn't have any diagnostics at `warning` severity or higher!".to_string())
    );
    let idle = DiagnosticsEvent::FilePulled { refreshed: true, running: false, groups: vec![] };
    assert!(diagnosis(diagnostics(&path, &None, idle))
        .unwrap()
        .starts_with("No language server is running for `a.rs`."));
    assert_eq!(
        diagnosis(diagnostics(&path, &None, DiagnosticsEvent::PathSearched { found: false })),
        Err("Could not find path a.rs in project".to_string())
    );
    assert!(diagnosis(diagnostics(&path, &Some("x".to_string()), DiagnosticsEvent::Requested))
        .unwrap_err()
        .starts_with("invalid min_severity \"x\""));
}

#[test]
fn the_project_summary_ignores_the_severity() {
    let summaries = vec![
        FileSummary { path: Some("/w/a.rs".to_string()), error_count: 1, warning_count: 2 },
        FileSummary { path: Some("/w/b.rs".to_string()), error_count: 0, warning_count: 0 },
        FileSummary { path: None, error_count: 3, warning_count: 0 },
    ];
    let event = DiagnosticsEvent::ProjectPulled { refreshed: true, summaries };
    assert_eq!(
        diagnosis(diagnostics(&Some(String::new()), &Some("nonsense".to_string()), event)),
        Ok("Diagnostics successfully refreshed.\n\n/w/a.rs: 1 error(s), 2 warning(s)\n".to_string())
    );
    let event = DiagnosticsEvent::ProjectPulled { refreshed: true, summaries: vec![] };
    assert_eq!(
        diagnosis(diagnostics(&None, &None, event)),
        Ok("Diagnostics successfully refreshed.\n\nNo errors or warnings found in the project."
            .to_string())
    );
    let event = DiagnosticsEvent::ProjectPulled { refreshed: false, summaries: vec![] };
    assert!(diagnosis(diagnostics(&None, &None, event))
        .unwrap()
        .ends_with("running for this project's files."));
    assert!(matches!(
        diagnostics(&None, &None, DiagnosticsEvent::Requested),
        DiagnosticsAction::PullProject
    ));
}

fn symbol(name: &str, container: Option<&str>, path: &str) -> Symbol {
    Symbol {
        name: name.to_string(),
        kind: "Function".to_string(),
        container_name: container.map(|c| c.to_string()),
        location: SymbolLocation::InProject { path: path.to_string() },
        row: 9,
    }
}

fn search(query: &str, symbols: Vec<Symbol>) -> String {
    match workspace_symbol(query, SymbolSearchEvent::Answered(Ok(symbols))) {
        SymbolSearchAction::Finish(Ok(text)) => text,
        _ => panic!("no answer"),
    }
}

#[test]
fn symbols_match_by_words_in_any_case() {
    let found = symbol("ÜberParse", Some("Reader"), "src/io.rs");
    assert!(symbol_matches_query(&found, "überparse reader"));
    assert!(symbol_matches_query(&found, "io.rs parse"));
    assert!(!symbol_matches_query(&found, "parse writer"));
}

#[test]
fn workspace_symbols_are_filtered_and_capped() {
    let symbols = vec![symbol("Parse", Some("io"), "a.rs"), symbol("other", None, "b.rs")];
    assert_eq!(
        search(" PARSE ", symbols),
        "Found 1 symbol(s) matching `PARSE` after client-side filtering (2 returned by the language server). Some language servers return overly broad workspace symbol results, so this tool filters and caps output.\n- Function `Parse` (io) — a.rs:10\n"
    );
    assert_eq!(
        search("other", vec![symbol("other", None, "b.rs")]),
        "Found 1 symbol(s) matching `other`.\n- Function `other` — b.rs:10\n"
    );
    let many: Vec<Symbol> = (0..101).map(|i| symbol(&format!("f{i}"), None, "c.rs")).collect();
    let answer = search("f", many);
    assert!(answer.starts_with("Found 101 symbol(s) matching `f`. Showing first 100; 1 omitted. Refine the query for narrower results. Some language servers"));
    assert_eq!(answer.lines().count(), 101);
    assert!(search("zzz", vec![symbol("other", None, "b.rs")]).starts_with(
        "The language server returned 1 symbol(s) for `zzz`, but none matched the query after client-side filtering."
    ));
    assert_eq!(search("zzz", vec![]), "No workspace symbols found matching `zzz`.");
    assert!(matches!(
        workspace_symbol(" a b ", SymbolSearchEvent::Requested),
        SymbolSearchAction::Query(q) if q == "a b"
    ));
    assert!(matches!(
        workspace_symbol(" \t", SymbolSearchEvent::Requested),
        SymbolSearchAction::Finish(Err(e)) if e.starts_with("`query` must not be empty.")
    ));
}

fn server(id: u64, name: &str) -> ServerStatus {
    ServerStatus {
        id,
        name: name.to_string(),
        version: Some("1.2".to_string()),
        worktree: Some("zed".to_string()),
        running: true,
        pending_work: 0,
    }
}

#[test]
fn language_servers_are_listed() {
    let mut busy = server(2, "gopls");
    busy.version = None;
    busy.worktree = None;
    busy.running = false;
    busy.pending_work = 3;
    let text = list_language_servers(&vec![server(1, "rust-analyzer"), busy]);
    assert_eq!(
        text,
        "Language servers in this project (2):\n- rust-analyzer v1.2 [id 1] worktree=`zed` — running, no pending work\n- gopls [id 2] worktree=`<no worktree>` — not running, 3 pending task(s)\n\nUse `lsp_restart_language_server` with the desired `name` to restart one (all instances with that name across worktrees will restart)."
    );
    assert_eq!(
        list_language_servers(&vec![]),
        "No language servers are currently registered for this project."
    );
    assert!(buffer_has_running_language_server(false, 0));
    assert!(!buffer_has_running_language_server(true, 0));
    assert!(buffer_has_running_language_server(true, 1));
}

#[test]
fn language_servers_are_restarted_by_name() {
    let servers = vec![server(1, "gopls"), server(2, "pyright"), server(3, "gopls")];
    assert!(matches!(
        restart_language_server("gopls", "stale", &servers),
        RestartAction::Restart { name, instances: 2, answer } if name == "gopls" && answer == "Restarted `gopls` (2 instance(s)). The server will re-index, which can take 30–60s for moderate projects. Reason: stale"
    ));
    assert!(matches!(
        restart_language_server("clangd", "stale", &servers),
        RestartAction::Finish(Ok(text)) if text == "No language server named `clangd` is registered for this project. Call `lsp_list_language_servers` to see the available names. (3 server(s) registered overall.)"
    ));
    assert!(matches!(
        restart_language_server(" ", "stale", &servers),
        RestartAction::Finish(Err(e)) if e == "`name` must not be empty."
    ));
    assert!(matches!(
        restart_language_server("gopls", "\n", &servers),
        RestartAction::Finish(Err(e)) if e == "`reason` must not be empty — provide a short justification."
    ));
}

#[test]
fn buffers_are_leased_once() {
    assert!(!LspBufferLease::default().release_after());
    let mut lease = LspBufferLease::new();
    assert!(!lease.release_after());
    assert!(lease.acquire(5));
    assert!(!lease.acquire(5));
    assert!(lease.release_after());
    assert!(lease.release());
    assert!(!lease.release());
    assert!(!lease.release_after());
    assert!(lease.acquire(5));
}

#[test]
fn outputs_have_a_text() {
    let diff = EditDiff {
        path: "a".to_string(),
        abs_path: String::new(),
        line: None,
        old_text: String::new(),
        new_text: String::new(),
    };
    let edited = EditOperationOutput::Edited(EditOutput { text: "e".to_string(), diffs: vec![diff] });
    assert_eq!(edited.text(), "e");
    assert_eq!(EditOperationOutput::Text("t".to_string()).text(), "t");
}
