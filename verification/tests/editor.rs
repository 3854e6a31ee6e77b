use agent_lsp::clock::{read_number, tick_delay};
use agent_lsp::code_actions::{CodeAction, CodeActionStore, PendingCodeActions};
use agent_lsp::commit_menu::{
    commit_context_menu, commit_to_view, git_context_menu_tasks, git_task_context, open_branch_changes,
    BranchChangesAction, BranchChangesEvent, CommitContextMenuData, CommitContextMenuRef,
    CommitContextMenuSource, MenuBinding, MenuCommand, MenuItem, RepositoryLocation, TaskLookup,
    VariableName,
};
use agent_lsp::edits::{EditDiff, EditOperationOutput, EditOutput};
use agent_lsp::operations::Operation;
use agent_lsp::symbol::SymbolLocator;
use agent_lsp::tools::{
    ApplyCodeActionTool, ApplyCodeActionToolInput, DiagnosticsEnd, DiagnosticsTool,
    DiagnosticsToolInput, FormatDocumentTool, FormatDocumentToolInput, HoverTool, HoverToolInput,
    ListLanguageServersTool, ListLanguageServersToolInput, LspEditToolOutput, RenameTool,
    RenameToolInput, RestartLanguageServerTool, RestartLanguageServerToolInput, ToolKind,
    WorkspaceSymbolTool, WorkspaceSymbolToolInput,
};

fn commit(tags: &[&str]) -> CommitContextMenuData {
    CommitContextMenuData {
        sha: "0123456789".to_string(),
        sha_short: "0123456".to_string(),
        tag_names: tags.iter().map(|t| t.to_string()).collect(),
    }
}

fn labels(items: &[MenuItem]) -> Vec<String> {
    items
        .iter()
        .map(|item| match item {
            MenuItem::Header(text) => format!("# {text}"),
            MenuItem::Separator => "---".to_string(),
            MenuItem::Entry { label, .. } => label.clone(),
            MenuItem::CopyMenu { label, entries } => format!("{label} > {}", entries.join(",")),
        })
        .collect()
}

#[test]
fn the_menu_of_a_commit() {
    let menu = commit_context_menu(
        &commit(&["v1"]),
        CommitContextMenuSource::GitPanel,
        &None,
        &vec!["Bisect".to_string(), "Revert".to_string()],
    );
    assert_eq!(
        labels(&menu),
        [
            "# Commit 0123456",
            "View Diff",
            "Copy SHA",
            "Copy Tag: v1",
            "Show in Git Graph",
            "---",
            "# Custom Commands",
            "Bisect",
            "Revert",
        ]
    );
    assert!(matches!(
        &menu[2],
        MenuItem::Entry { binding: Some(MenuBinding::CopyCommitSha), command: MenuCommand::Copy(text), .. }
            if text == "0123456789"
    ));
    assert!(matches!(
        &menu[1],
        MenuItem::Entry { command: MenuCommand::ViewDiff { sha }, .. } if sha == "0123456789"
    ));
    assert!(matches!(
        &menu[4],
        MenuItem::Entry { command: MenuCommand::ShowInGraph { sha }, .. } if sha == "0123456789"
    ));
    assert!(matches!(
        &menu[8],
        MenuItem::Entry { binding: None, command: MenuCommand::RunTask(1), .. }
    ));
}

#[test]
fn the_menu_of_a_ref() {
    let branch = Some(CommitContextMenuRef::Branch("main".to_string()));
    let menu =
        commit_context_menu(&commit(&["v1"]), CommitContextMenuSource::GitGraph, &branch, &vec![]);
    assert_eq!(
        labels(&menu),
        [
            "# Ref main",
            "View Branch Changes",
            "Copy SHA",
            "Copy Ref Name",
            "---",
            "# Custom Commands",
            "Learn More",
        ]
    );
    let tag = Some(CommitContextMenuRef::Tag("v1".to_string()));
    let menu =
        commit_context_menu(&commit(&[]), CommitContextMenuSource::GitGraph, &tag, &vec![]);
    assert_eq!(labels(&menu)[..2], ["# Ref v1", "View Diff"]);
    assert_eq!(tag.unwrap().name(), "v1");
}

#[test]
fn tags_are_copied_from_the_menu() {
    let item = |tags: &[&str]| {
        let menu =
            commit_context_menu(&commit(tags), CommitContextMenuSource::GitGraph, &None, &vec![]);
        labels(&menu)[3].clone()
    };
    assert_eq!(item(&[]), "Copy Tag");
    assert_eq!(item(&["a", "b"]), "Copy Tag > a,b");
    let menu =
        commit_context_menu(&commit(&[]), CommitContextMenuSource::GitGraph, &None, &vec![]);
    assert!(matches!(&menu[3], MenuItem::Entry { command: MenuCommand::Disabled, .. }));
}

#[test]
fn branch_changes_need_a_base() {
    let next = |event| open_branch_changes("sha", "main", event);
    assert!(matches!(
        next(BranchChangesEvent::Chosen { has_repository: false }),
        BranchChangesAction::Nothing
    ));
    assert!(matches!(
        next(BranchChangesEvent::Chosen { has_repository: true }),
        BranchChangesAction::AskDefaultBranch
    ));
    assert!(matches!(
        next(BranchChangesEvent::DefaultBranch(Ok(None))),
        BranchChangesAction::Notify(e) if e == "Could not determine the default branch"
    ));
    assert!(matches!(
        next(BranchChangesEvent::DefaultBranch(Ok(Some("trunk".to_string())))),
        BranchChangesAction::Open { base_ref, branch_ref, head_sha }
            if base_ref == "trunk" && branch_ref == "main" && head_sha == "sha"
    ));
    assert!(matches!(
        next(BranchChangesEvent::Opened(Err("no".to_string()))),
        BranchChangesAction::Notify(e) if e == "no"
    ));
}

#[test]
fn custom_commands_get_variables() {
    assert!(git_task_context(&None, &commit(&[]), None).is_none());
    let repository =
        Some(RepositoryLocation {
            path: b"/w/\xffzed".to_vec(),
            path_text: "/w/\u{fffd}zed".to_string(),
            name: Some("zed".to_string()),
        });
    let context = git_task_context(&repository, &commit(&[]), Some("main")).unwrap();
    assert_eq!(context.cwd, b"/w/\xffzed");
    let variables: Vec<(VariableName, &str)> =
        context.variables.iter().map(|v| (v.name, v.value.as_str())).collect();
    assert_eq!(
        variables,
        [
            (VariableName::GitSha, "0123456789"),
            (VariableName::GitShaShort, "0123456"),
            (VariableName::GitRepositoryPath, "/w/\u{fffd}zed"),
            (VariableName::GitRepositoryName, "zed"),
            (VariableName::GitRef, "main"),
        ]
    );
    let root = Some(RepositoryLocation { path: b"/".to_vec(), path_text: "/".to_string(), name: None });
    assert_eq!(git_task_context(&root, &commit(&[]), None).unwrap().variables.len(), 3);
    assert!(matches!(
        git_context_menu_tasks(Some(context.clone()), true, true),
        TaskLookup::Inventory(_)
    ));
    assert!(matches!(
        git_context_menu_tasks(Some(context), false, true),
        TaskLookup::Nowhere
    ));
    assert!(matches!(git_context_menu_tasks(None, true, true), TaskLookup::Nowhere));
}

#[test]
fn a_diff_is_viewed_in_a_repository() {
    assert_eq!(commit_to_view("0123456789", true), Some("0123456789".to_string()));
    assert_eq!(commit_to_view("0123456789", false), None);
}

#[test]
fn the_clock_ticks_on_the_minute() {
    assert_eq!(tick_delay("00"), 60);
    assert_eq!(tick_delay("59"), 1);
    assert_eq!(tick_delay("60"), 0);
    assert_eq!(tick_delay("noon"), 60);
}

#[test]
fn numbers_are_read_as_digits() {
    assert_eq!(read_number("007"), Some(7));
    assert_eq!(read_number("+7"), Some(7));
    assert_eq!(read_number("18446744073709551615"), Some(u64::MAX));
    assert_eq!(read_number("18446744073709551616"), None);
    assert_eq!(read_number("99999999999999999999999"), None);
    assert_eq!(read_number(""), None);
    assert_eq!(read_number("+"), None);
    assert_eq!(read_number("++1"), None);
    assert_eq!(read_number("-1"), None);
    assert_eq!(read_number("1 "), None);
}

fn symbol() -> SymbolLocator {
    SymbolLocator::new("a.rs".to_string(), 1, "f".to_string())
}

#[test]
fn tools_have_names_kinds_and_titles() {
    assert_eq!(
        [
            (ApplyCodeActionTool::name(), ApplyCodeActionTool::kind()),
            (DiagnosticsTool::name(), DiagnosticsTool::kind()),
            (FormatDocumentTool::name(), FormatDocumentTool::kind()),
            (HoverTool::name(), HoverTool::kind()),
            (ListLanguageServersTool::name(), ListLanguageServersTool::kind()),
            (RenameTool::name(), RenameTool::kind()),
            (RestartLanguageServerTool::name(), RestartLanguageServerTool::kind()),
            (WorkspaceSymbolTool::name(), WorkspaceSymbolTool::kind()),
        ],
        [
            ("apply_code_action", ToolKind::Other),
            ("diagnostics", ToolKind::Read),
            ("format_document", ToolKind::Edit),
            ("hover", ToolKind::Read),
            ("list_language_servers", ToolKind::Read),
            ("rename_symbol", ToolKind::Other),
            ("restart_language_server", ToolKind::Other),
            ("workspace_symbol", ToolKind::Search),
        ]
    );
    assert_eq!(DiagnosticsTool::initial_title(Some("`a`")), "Check diagnostics for `a`");
    assert_eq!(DiagnosticsTool::initial_title(None), "Check project diagnostics");
    assert_eq!(FormatDocumentTool::initial_title(Some("`a`")), "Format `a`");
    assert_eq!(FormatDocumentTool::initial_title(None), "Format document");
    assert_eq!(
        HoverTool::initial_title(Some(&HoverToolInput { symbol: symbol() })),
        "Get hover info for `f`"
    );
    assert_eq!(HoverTool::initial_title(None), "Get hover info");
    assert_eq!(ListLanguageServersTool::initial_title(), "List language servers");
    assert_eq!(
        RenameTool::initial_title(Some(&RenameToolInput {
            symbol: symbol(),
            new_name: "g".to_string(),
        })),
        "Rename `f` to `g`"
    );
    assert_eq!(RenameTool::initial_title(None), "Rename symbol");
    let restart = RestartLanguageServerToolInput {
        name: "gopls".to_string(),
        reason: "stale".to_string(),
    };
    assert_eq!(
        RestartLanguageServerTool::initial_title(Some(&restart)),
        "Restart language server `gopls`"
    );
    assert_eq!(
        WorkspaceSymbolTool::initial_title(Some(&WorkspaceSymbolToolInput {
            query: "q".to_string(),
        })),
        "Search workspace symbols for `q`"
    );
    let empty = DiagnosticsToolInput { path: Some(String::new()), min_severity: None };
    assert_eq!(DiagnosticsTool::title_path(Some(&empty)), None);
    let path = DiagnosticsToolInput { path: Some("a".to_string()), min_severity: None };
    assert_eq!(DiagnosticsTool::title_path(Some(&path)), Some("a"));
}

#[test]
fn titles_name_the_code_action() {
    let mut store = CodeActionStore::new();
    let title = |store: &CodeActionStore, index| {
        ApplyCodeActionTool::initial_title(store, Some(&ApplyCodeActionToolInput { index }))
    };
    assert_eq!(title(&store, 1), "Apply code action #1");
    store.pending = Some(PendingCodeActions {
        actions: vec![CodeAction { title: "Import".to_string() }],
        buffer_id: 1,
    });
    assert_eq!(title(&store, 1), "Apply code action: Import");
    assert_eq!(title(&store, 0), "Apply code action #0");
    assert_eq!(title(&store, 2), "Apply code action #2");
    assert_eq!(ApplyCodeActionTool::initial_title(&store, None), "Apply code action");
}

#[test]
fn the_code_action_tool_clears_the_list() {
    let mut store = CodeActionStore::new();
    let input = || Ok(ApplyCodeActionToolInput { index: 1 });
    assert!(matches!(
        ApplyCodeActionTool::run(&mut store, input()),
        Err(LspEditToolOutput::Text(t)) if t == "No code actions available. Call get_code_actions first."
    ));
    store.pending = Some(PendingCodeActions { actions: vec![], buffer_id: 7 });
    assert!(matches!(
        ApplyCodeActionTool::run(&mut store, Err("gone".to_string())),
        Err(LspEditToolOutput::Text(t)) if t == "Failed to receive tool input: gone"
    ));
    assert!(store.pending.is_some());
    assert!(matches!(
        ApplyCodeActionTool::run(&mut store, input()),
        Ok(Operation::ApplyCodeAction { index: 1, list }) if list.buffer_id == 7
    ));
    assert!(store.pending.is_none());
    let result = LspEditToolOutput::of_result(Err("no".to_string()));
    assert_eq!(result.unwrap_err().text(), "no");
}

#[test]
fn tools_begin_their_operation() {
    assert!(matches!(
        DiagnosticsTool::run(Err("gone".to_string())),
        Err(e) if e == "gone"
    ));
    assert!(matches!(
        DiagnosticsTool::finish(DiagnosticsEnd::CancelledByUser),
        Err(e) if e == "Diagnostics cancelled by user"
    ));
    assert!(matches!(
        FormatDocumentTool::run(Ok(FormatDocumentToolInput { file_path: "a".to_string() })),
        Ok(Operation::FormatDocument { file_path }) if file_path == "a"
    ));
    assert!(matches!(
        HoverTool::run(Ok(HoverToolInput { symbol: symbol() })),
        Ok(Operation::Hover(s)) if s.symbol_name == "f"
    ));
    assert!(matches!(
        ListLanguageServersTool::run(Ok(ListLanguageServersToolInput {})),
        Ok(Operation::ListLanguageServers)
    ));
    assert!(matches!(
        RenameTool::run(Err("gone".to_string())),
        Err(LspEditToolOutput::Text(t)) if t == "Failed to receive tool input: gone"
    ));
    assert!(matches!(
        RestartLanguageServerTool::run(Err("gone".to_string())),
        Err(e) if e == "Failed to receive tool input: gone"
    ));
    assert!(matches!(
        WorkspaceSymbolTool::run(Ok(WorkspaceSymbolToolInput { query: "q".to_string() })),
        Ok(Operation::WorkspaceSymbol { query }) if query == "q"
    ));
}

#[test]
fn edit_outputs_show_their_diffs() {
    let change = EditDiff {
        path: "a.rs".to_string(),
        abs_path: "/w/a.rs".to_string(),
        line: Some(1),
        old_text: "x".to_string(),
        new_text: "y".to_string(),
    };
    let output = LspEditToolOutput::of_result(Ok(EditOperationOutput::Edited(EditOutput {
        text: "done".to_string(),
        diffs: vec![change],
    })))
    .unwrap();
    assert_eq!(output.text(), "done");
    assert_eq!(output.emit_diffs().len(), 1);
    assert_eq!(output.emit_diffs()[0].path, "a.rs");
    let text = LspEditToolOutput::from_agent_lsp(EditOperationOutput::Text("t".to_string()));
    assert_eq!(text.text(), "t");
    assert!(text.emit_diffs().is_empty());
}
