use agent_lsp::bridge::buffers::{
    apply_text_edit, expand_tilde, open_buffer, read_buffer, Excerpt, OpenBuffer, PathForm,
    ReadBufferAction, ReadBufferEvent, SavedEdit, TextEditAction, TextEditEvent,
};
use agent_lsp::bridge::calls::{
    accept_params, argument_shape, bridge_diffs_from_agent_lsp, build_edit_output, build_op,
    complete_op, error_content, execute_op, handle_tools_call, reject, ArgumentShape, BridgeDiff,
    Dispatched, LspBridgeOp, Outcome, ToolArguments, ToolOutput, ToolsCallParams,
};
use agent_lsp::bridge::catalog::{kind_for_tool, tool_definitions, tools_json, Tool};
use agent_lsp::bridge::protocol::{
    process_message, reply_status, respond, BridgeStep, JsonRpcError, LspMcpBridge,
};
use agent_lsp::code_actions::{CodeAction, CodeActionStore, CodeActionsOutput, PendingCodeActions};
use agent_lsp::edits::{EditDiff, EditOperationOutput, EditOutput};
use agent_lsp::json::{find_member, set_member, take_member, Json, Member};
use agent_lsp::operations::Operation;
use agent_lsp::snapshot::TextSnapshot;

fn to_value(json: &Json) -> serde_json::Value {
    match json {
        Json::Null => serde_json::Value::Null,
        Json::Bool(b) => serde_json::Value::Bool(*b),
        Json::Number(text) => serde_json::from_str(text).unwrap(),
        Json::Text(text) => serde_json::Value::String(text.clone()),
        Json::Array(items) => serde_json::Value::Array(items.iter().map(to_value).collect()),
        Json::Object(members) => serde_json::Value::Object(
            members.iter().map(|m| (m.name.clone(), to_value(&m.value))).collect(),
        ),
    }
}

fn from_value(value: &serde_json::Value) -> Json {
    match value {
        serde_json::Value::Null => Json::Null,
        serde_json::Value::Bool(b) => Json::Bool(*b),
        serde_json::Value::Number(n) => Json::Number(n.to_string()),
        serde_json::Value::String(s) => Json::Text(s.clone()),
        serde_json::Value::Array(items) => Json::Array(items.iter().map(from_value).collect()),
        serde_json::Value::Object(members) => Json::Object(
            members
                .iter()
                .map(|(name, value)| Member { name: name.clone(), value: from_value(value) })
                .collect(),
        ),
    }
}

fn parse(text: &str) -> Json {
    from_value(&serde_json::from_str(text).unwrap())
}

fn render(json: &Json) -> String {
    serde_json::to_string(&to_value(json)).unwrap()
}

fn reply(message: &str) -> Option<String> {
    match process_message(parse(message)) {
        BridgeStep::Reply(reply) => reply.as_ref().map(render),
        BridgeStep::CallTool { .. } => panic!("a tool is called"),
    }
}

fn diff(line: Option<u32>) -> BridgeDiff {
    BridgeDiff {
        path: "a.rs".to_string(),
        abs_path: "/w/a.rs".to_string(),
        line,
        old_text: "x".to_string(),
        new_text: "y".to_string(),
    }
}

fn list() -> PendingCodeActions {
    PendingCodeActions {
        actions: vec![CodeAction { title: "Import".to_string() }],
        buffer_id: 1,
    }
}

#[test]
fn members_are_set_in_place_and_taken() {
    let mut members = match parse("{\"a\":1,\"b\":2}") {
        Json::Object(members) => members,
        _ => panic!("no object"),
    };
    set_member(&mut members, "a", Json::Bool(true));
    set_member(&mut members, "c", Json::Null);
    assert_eq!(find_member(&members, "c"), Some(2));
    assert_eq!(find_member(&members, "d"), None);
    assert!(matches!(take_member(&mut members, "b"), Some(Json::Number(n)) if n == "2"));
    assert!(take_member(&mut members, "d").is_none());
    assert_eq!(render(&Json::Object(members)), "{\"a\":true,\"b\":null,\"c\":null}");
}

#[test]
fn the_bridge_tells_its_address() {
    assert_eq!(LspMcpBridge::at("127.0.0.1:4711").url(), "http://127.0.0.1:4711/");
}

#[test]
fn requests_without_a_tool_are_answered() {
    assert_eq!(
        reply("{\"jsonrpc\":\"2.0\",\"id\":1,\"method\":\"initialize\",\"params\":{}}"),
        Some("{\"jsonrpc\":\"2.0\",\"id\":1,\"result\":{\"protocolVersion\":\"2024-11-05\",\"capabilities\":{\"tools\":{}},\"serverInfo\":{\"name\":\"zed-lsp-bridge\",\"version\":\"0.1.0\"}}}".to_string())
    );
    assert_eq!(
        reply("{\"id\":\"x\",\"method\":\"ping\"}"),
        Some("{\"jsonrpc\":\"2.0\",\"id\":\"x\",\"result\":{}}".to_string())
    );
    assert_eq!(
        reply("{\"id\":null,\"method\":\"notifications/initialized\"}"),
        Some("{\"jsonrpc\":\"2.0\",\"id\":null,\"result\":null}".to_string())
    );
    assert_eq!(
        reply("{\"id\":2,\"method\":\"shutdown\"}"),
        Some("{\"jsonrpc\":\"2.0\",\"id\":2,\"error\":{\"code\":-32601,\"message\":\"method not supported: shutdown\"}}".to_string())
    );
}

#[test]
fn notifications_get_no_response() {
    assert_eq!(reply("{\"method\":\"notifications/initialized\"}"), None);
    assert_eq!(reply("{\"method\":\"unheard of\"}"), None);
    assert_eq!(reply("{\"id\":3}"), None);
    assert_eq!(reply("{\"id\":3,\"method\":4}"), None);
    assert_eq!(reply("[1]"), None);
    assert_eq!(reply_status(&None), 202);
    assert_eq!(reply_status(&Some(Json::Null)), 200);
}

#[test]
fn tool_calls_are_handed_on() {
    let message = "{\"id\":5,\"method\":\"tools/call\",\"params\":{\"name\":\"lsp_hover\"}}";
    match process_message(parse(message)) {
        BridgeStep::CallTool { id, params } => {
            assert_eq!(id.as_ref().map(render), Some("5".to_string()));
            assert_eq!(render(&params), "{\"name\":\"lsp_hover\"}");
            let error = JsonRpcError::invalid_params("no".to_string());
            assert_eq!(
                respond(id, Err(error)).as_ref().map(render),
                Some("{\"jsonrpc\":\"2.0\",\"id\":5,\"error\":{\"code\":-32602,\"message\":\"no\"}}".to_string())
            );
        }
        BridgeStep::Reply(_) => panic!("no tool is called"),
    }
    assert!(matches!(
        process_message(parse("{\"method\":\"tools/call\"}")),
        BridgeStep::CallTool { id: None, params: Json::Null }
    ));
    assert!(respond(None, Ok(Json::Null)).is_none());
}

#[test]
fn tools_are_announced() {
    let definitions = tool_definitions();
    let names: Vec<&str> = definitions.iter().map(|d| d.name).collect();
    assert_eq!(
        names,
        [
            "lsp_find_references",
            "lsp_diagnostics",
            "lsp_rename_symbol",
            "lsp_format_document",
            "lsp_get_code_actions",
            "lsp_apply_code_action",
            "lsp_hover",
            "lsp_workspace_symbol",
            "lsp_list_language_servers",
            "lsp_restart_language_server",
            "read_buffer",
            "apply_text_edit",
        ]
    );
    let value = to_value(&tools_json());
    assert_eq!(
        serde_json::to_string(&value[1]["inputSchema"]).unwrap(),
        "{\"type\":\"object\",\"properties\":{\"path\":{\"type\":\"string\",\"description\":\"Optional relative project path. Omit for a project-wide summary.\"},\"min_severity\":{\"type\":\"string\",\"enum\":[\"error\",\"warning\",\"information\",\"hint\"],\"description\":\"Minimum severity to report for a per-file query (default \\\"warning\\\"). Lower it to also surface information/hint-level lints, e.g. an unused argument in a pure internal helper. Ignored for the project-wide summary.\"}}}"
    );
    assert_eq!(
        serde_json::to_string(&value[8]["inputSchema"]).unwrap(),
        "{\"type\":\"object\",\"properties\":{}}"
    );
    assert_eq!(
        serde_json::to_string(&value[5]).unwrap(),
        "{\"name\":\"lsp_apply_code_action\",\"description\":\"Apply a code action previously listed by `lsp_get_code_actions`. Reference the action by its 1-based index in the previous list. The cached list is cleared after a successful apply; call `lsp_get_code_actions` again to obtain a fresh list.\\n\\nAll buffers modified by the action are saved automatically, going through Zed's format-on-save pipeline. Returns the list of files that were changed.\",\"inputSchema\":{\"type\":\"object\",\"properties\":{\"index\":{\"type\":\"integer\",\"description\":\"1-based index of the code action to apply.\"}},\"required\":[\"index\"]}}"
    );
    assert_eq!(
        serde_json::to_string(&value[10]["inputSchema"]["required"]).unwrap(),
        "[\"file_path\"]"
    );
    let restart = value[9]["description"].as_str().unwrap();
    assert!(restart.contains("Reach for this only when:\n- LSP responses are clearly inconsistent across calls,\n- You"));
    let listed = match process_message(parse("{\"id\":1,\"method\":\"tools/list\"}")) {
        BridgeStep::Reply(Some(json)) => to_value(&json),
        _ => panic!("no list"),
    };
    assert_eq!(listed["result"]["tools"], value);
}

#[test]
fn tools_are_displayed_by_kind() {
    for (name, kind) in [
        ("apply_text_edit", "edit"),
        ("lsp_format_document", "edit"),
        ("lsp_rename_symbol", "edit"),
        ("lsp_apply_code_action", "edit"),
        ("lsp_find_references", "search"),
        ("lsp_workspace_symbol", "search"),
        ("lsp_diagnostics", "read"),
        ("lsp_hover", "read"),
        ("read_buffer", "read"),
        ("lsp_list_language_servers", "read"),
        ("lsp_get_code_actions", "other"),
        ("unheard of", "other"),
    ] {
        assert_eq!(kind_for_tool(name), kind);
    }
    assert_eq!(Tool::named("lsp_hover"), Some(Tool::Hover));
    assert_eq!(Tool::named("hover"), None);
}

#[test]
fn operations_are_built_from_arguments() {
    assert_eq!(argument_shape("lsp_hover"), ArgumentShape::Symbol);
    assert_eq!(argument_shape("lsp_list_language_servers"), ArgumentShape::Any);
    assert_eq!(argument_shape("unheard of"), ArgumentShape::Any);
    let symbol = || {
        Ok(ToolArguments::Symbol {
            file_path: "a.rs".to_string(),
            line: 3,
            symbol_name: "f".to_string(),
        })
    };
    assert!(matches!(
        build_op("lsp_find_references", symbol()),
        Ok(LspBridgeOp::FindReferences { line: 3, .. })
    ));
    assert!(matches!(
        build_op("lsp_get_code_actions", symbol()),
        Ok(LspBridgeOp::GetCodeActions { symbol_name, .. }) if symbol_name == "f"
    ));
    assert!(matches!(build_op("lsp_hover", symbol()), Ok(LspBridgeOp::Hover { .. })));
    assert!(matches!(
        build_op("lsp_apply_code_action", Ok(ToolArguments::Index { index: 2 })),
        Ok(LspBridgeOp::ApplyCodeAction { index: 2 })
    ));
    assert!(matches!(
        build_op("lsp_list_language_servers", Err("ignored".to_string())),
        Ok(LspBridgeOp::ListLanguageServers)
    ));
    let error = build_op("lsp_hover", Err("missing field `line`".to_string())).unwrap_err();
    assert_eq!((error.code, error.message.as_str()), (-32602, "bad arguments: missing field `line`"));
    let error = build_op("unheard of", Ok(ToolArguments::Any)).unwrap_err();
    assert_eq!((error.code, error.message.as_str()), (-32601, "unknown tool: unheard of"));
    let error = accept_params(Err("missing field `name`".to_string())).unwrap_err();
    assert_eq!(
        (error.code, error.message.as_str()),
        (-32602, "invalid tools/call params: missing field `name`")
    );
    let params = ToolsCallParams { name: "read_buffer".to_string(), arguments: Json::Null };
    assert_eq!(accept_params(Ok(params)).unwrap().name, "read_buffer");
}

#[test]
fn operations_take_the_project_and_the_list() {
    let mut store = CodeActionStore::new();
    assert_eq!(
        execute_op(false, &mut store, LspBridgeOp::ListLanguageServers).err(),
        Some("project no longer available".to_string())
    );
    assert_eq!(
        execute_op(true, &mut store, LspBridgeOp::ApplyCodeAction { index: 1 }).err(),
        Some("No code actions cached. Call `lsp_get_code_actions` first.".to_string())
    );
    let listed = CodeActionsOutput { text: "one".to_string(), pending: Some(list()) };
    assert!(matches!(
        complete_op(&mut store, Outcome::Listed(Ok(listed))),
        Ok(ToolOutput::Text(text)) if text == "one"
    ));
    let op = execute_op(true, &mut store, LspBridgeOp::ApplyCodeAction { index: 1 });
    let list = match op {
        Ok(Operation::ApplyCodeAction { index: 1, list }) => list,
        _ => panic!("no list"),
    };
    assert!(store.pending.is_none());
    let failed = Outcome::Applied { list, result: Err("no".to_string()) };
    assert!(matches!(complete_op(&mut store, failed), Err(e) if e == "no"));
    assert!(store.pending.is_some());
    let failed = Outcome::Listed(Err("no server".to_string()));
    assert!(complete_op(&mut store, failed).is_err());
    assert!(store.pending.is_some());
    assert!(matches!(
        execute_op(
            true,
            &mut store,
            LspBridgeOp::Hover {
                file_path: "a.rs".to_string(),
                line: 1,
                symbol_name: "f".to_string(),
            },
        ),
        Ok(Operation::Hover(symbol)) if symbol.symbol_name == "f"
    ));
    assert!(matches!(
        execute_op(
            true,
            &mut store,
            LspBridgeOp::GetCodeActions {
                file_path: "a.rs".to_string(),
                line: 1,
                symbol_name: "f".to_string(),
            },
        ),
        Ok(Operation::GetCodeActions { symbol, apply_tool_name: "lsp_apply_code_action" })
            if symbol.file_path == "a.rs"
    ));
}

#[test]
fn changes_carry_their_diffs() {
    let change = EditDiff {
        path: "a.rs".to_string(),
        abs_path: "/w/a.rs".to_string(),
        line: None,
        old_text: "x".to_string(),
        new_text: "y".to_string(),
    };
    let diffs = bridge_diffs_from_agent_lsp(vec![change.clone()]);
    assert_eq!(diffs[0].new_text, "y");
    let edited =
        EditOperationOutput::Edited(EditOutput { text: "done".to_string(), diffs: vec![change] });
    let mut store = CodeActionStore::new();
    match complete_op(&mut store, Outcome::Changed(Ok(edited))) {
        Ok(ToolOutput::Rich { text, meta }) => {
            assert_eq!(text, "done");
            assert_eq!(
                render(&meta),
                "{\"zed_bridge\":{\"version\":1,\"kind\":\"edit\",\"diffs\":[{\"path\":\"a.rs\",\"abs_path\":\"/w/a.rs\",\"old_text\":\"x\",\"new_text\":\"y\"}]}}"
            );
        }
        _ => panic!("no diffs"),
    }
    assert_eq!(
        render(&diff(Some(4)).to_json()),
        "{\"path\":\"a.rs\",\"abs_path\":\"/w/a.rs\",\"line\":4,\"old_text\":\"x\",\"new_text\":\"y\"}"
    );
}

#[test]
fn answers_and_records_are_kept_apart() {
    let call = |name: &str, dispatched| handle_tools_call(name.to_string(), dispatched);
    let outcome = call(
        "lsp_hover",
        Dispatched::Replied(Ok(ToolOutput::from("fn f()".to_string()))),
    );
    assert_eq!(
        render(&outcome.result.unwrap()),
        "{\"content\":[{\"type\":\"text\",\"text\":\"fn f()\"}],\"isError\":false}"
    );
    let entry = outcome.published.unwrap();
    assert_eq!(entry.tool, "lsp_hover");
    assert_eq!(render(&entry.payload), "{\"version\":1,\"kind\":\"read\",\"tool\":\"lsp_hover\"}");

    let output = build_edit_output("done".to_string(), vec![diff(None)]);
    let outcome = call("lsp_get_code_actions", Dispatched::Replied(Ok(output)));
    assert_eq!(
        render(&outcome.published.unwrap().payload),
        "{\"version\":1,\"kind\":\"edit\",\"tool\":\"lsp_get_code_actions\",\"diffs\":[{\"path\":\"a.rs\",\"abs_path\":\"/w/a.rs\",\"old_text\":\"x\",\"new_text\":\"y\"}]}"
    );

    let rich = ToolOutput::Rich {
        text: "body".to_string(),
        meta: parse("{\"zed_bridge\":{\"line\":2},\"other\":1}"),
    };
    let outcome = call("read_buffer", Dispatched::Replied(Ok(rich)));
    assert_eq!(
        render(&outcome.published.unwrap().payload),
        "{\"version\":1,\"kind\":\"read\",\"tool\":\"read_buffer\",\"text\":\"body\",\"line\":2}"
    );
}

#[test]
fn calls_that_fail_leave_no_record() {
    let outcome =
        handle_tools_call("lsp_hover".to_string(), Dispatched::Replied(Err("no".to_string())));
    assert!(outcome.published.is_none());
    assert_eq!(
        render(&outcome.result.unwrap()),
        "{\"content\":[{\"type\":\"text\",\"text\":\"no\"}],\"isError\":true}"
    );
    assert_eq!(
        render(&error_content("no")),
        "{\"content\":[{\"type\":\"text\",\"text\":\"no\"}],\"isError\":true}"
    );
    let outcome = handle_tools_call("lsp_hover".to_string(), Dispatched::QueueClosed);
    let error = outcome.result.unwrap_err();
    assert_eq!((error.code, error.message.as_str()), (-32603, "dispatch queue closed"));
    let outcome = handle_tools_call("lsp_hover".to_string(), Dispatched::ReplyDropped);
    let error = outcome.result.unwrap_err();
    assert_eq!((error.code, error.message.as_str()), (-32603, "foreground dispatch dropped reply"));
    assert_eq!(reject().unwrap_err(), "foreground dispatch queue closed");
}

#[test]
fn paths_from_home_are_recognised() {
    assert!(matches!(expand_tilde("~/.zshrc"), PathForm::UnderHome(rest) if rest == ".zshrc"));
    assert!(matches!(expand_tilde("~"), PathForm::Home));
    assert!(matches!(expand_tilde("~x/a"), PathForm::Literal(path) if path == "~x/a"));
    assert!(matches!(expand_tilde("a~/b"), PathForm::Literal(path) if path == "a~/b"));
    assert!(matches!(open_buffer("a", true, true), OpenBuffer::InProject));
    assert!(matches!(open_buffer("/a", false, true), OpenBuffer::Local));
    assert!(matches!(
        open_buffer("a", false, false),
        OpenBuffer::Refuse(e) if e == "'a' is neither a project-relative path nor absolute. Pass an absolute path or a path beginning with `~/` to read files outside this project."
    ));
}

#[test]
fn excerpts_are_bounded_by_the_buffer() {
    let snapshot = TextSnapshot::new("one\ntwo\nthree");
    let read = |start, end| {
        let excerpt = Excerpt::of(&snapshot, start, end);
        (excerpt.text, excerpt.start_row, excerpt.total_lines)
    };
    assert_eq!(read(None, None), ("one\ntwo\nthree".to_string(), 0, 3));
    assert_eq!(read(Some(2), Some(2)), ("two".to_string(), 1, 3));
    assert_eq!(read(Some(3), Some(2)), ("two\nthree".to_string(), 1, 3));
    assert_eq!(read(Some(0), Some(1)), ("one".to_string(), 0, 3));
    assert_eq!(read(Some(9), None), ("three".to_string(), 2, 3));
    assert_eq!(read(None, Some(99)), ("one\ntwo\nthree".to_string(), 0, 3));
}

#[test]
fn buffers_are_read_with_their_location() {
    let event = ReadBufferEvent::Opened(Ok(TextSnapshot::new("one\ntwo")));
    let excerpt = match read_buffer("a.rs", Some(2), None, event) {
        ReadBufferAction::Render(excerpt) => excerpt,
        _ => panic!("nothing to show"),
    };
    assert_eq!(excerpt.text, "two");
    let event = ReadBufferEvent::Rendered {
        excerpt,
        code_block: "```a.rs\ntwo\n```\n".to_string(),
        dirty: true,
        abs_path: Some("/w/a.rs".to_string()),
    };
    match read_buffer("a.rs", Some(2), None, event) {
        ReadBufferAction::Finish(Ok(ToolOutput::Rich { text, meta })) => {
            assert_eq!(
                text,
                "(buffer is dirty — shown content includes unsaved user edits)\na.rs (2 lines)\n```a.rs\ntwo\n```\n"
            );
            assert_eq!(
                render(&meta),
                "{\"zed_bridge\":{\"path\":\"a.rs\",\"abs_path\":\"/w/a.rs\",\"line\":1}}"
            );
        }
        _ => panic!("nothing was read"),
    }
    assert!(matches!(
        read_buffer("a.rs", None, None, ReadBufferEvent::Opened(Err("gone".to_string()))),
        ReadBufferAction::Finish(Err(e)) if e == "Failed to open 'a.rs': gone"
    ));
}

fn edit(old: &str, text: &str) -> Result<(usize, usize, u32), String> {
    match apply_text_edit("a.rs", old, "new", TextEditEvent::Opened(Ok(text.to_string()))) {
        TextEditAction::Edit { start, end, line, text } => {
            assert_eq!(text, "new");
            Ok((start, end, line))
        }
        TextEditAction::Finish(Err(error)) => Err(error),
        _ => panic!("no decision"),
    }
}

#[test]
fn edits_take_the_one_occurrence() {
    assert_eq!(edit("bär", "é\nx bär\n"), Ok((5, 9, 1)));
    assert_eq!(
        edit("zzz", "abc"),
        Err("`old_string` not found in `a.rs`. The buffer may differ from what you expected — use `read_buffer` to inspect it.".to_string())
    );
    assert_eq!(
        edit("a", "a b a"),
        Err("`old_string` appears 2 times in `a.rs`. Provide a larger snippet so the target location is unique.".to_string())
    );
    let times = |n: u32| {
        Err(format!("`old_string` appears {n} times in `a.rs`. Provide a larger snippet so the target location is unique."))
    };
    assert_eq!(edit("aa", "aaa"), times(2));
    assert_eq!(edit("aa", "aaaa"), times(2));
    assert_eq!(edit("aa", "aaaaaa"), times(3));
    assert_eq!(edit("", "abc"), Err("old_string must not be empty".to_string()));
}

#[test]
fn edits_are_saved_and_shown() {
    assert!(matches!(
        apply_text_edit("a.rs", "x", "y", TextEditEvent::PathSearched { found: true }),
        TextEditAction::OpenBuffer
    ));
    assert!(matches!(
        apply_text_edit("a.rs", "x", "y", TextEditEvent::PathSearched { found: false }),
        TextEditAction::Finish(Err(e)) if e == "Could not find path 'a.rs' in project"
    ));
    assert!(matches!(
        apply_text_edit("a.rs", "x", "y", TextEditEvent::Saved(Err("full".to_string()))),
        TextEditAction::Finish(Err(e)) if e == "Edit applied in-memory but saving `a.rs` failed: full"
    ));
    let saved = SavedEdit {
        line: 4,
        abs_path: None,
        old_text: "x".to_string(),
        new_text: "y".to_string(),
    };
    match apply_text_edit("a.rs", "x", "y", TextEditEvent::Saved(Ok(saved))) {
        TextEditAction::Finish(Ok(ToolOutput::Rich { text, meta })) => {
            assert_eq!(
                text,
                "Edit applied to `a.rs` and saved to disk. Format-on-save (if configured) has run."
            );
            assert_eq!(
                render(&meta),
                "{\"zed_bridge\":{\"version\":1,\"kind\":\"edit\",\"diffs\":[{\"path\":\"a.rs\",\"abs_path\":\"\",\"line\":4,\"old_text\":\"x\",\"new_text\":\"y\"}]}}"
            );
        }
        _ => panic!("nothing was saved"),
    }
}
