//! Laws on the calls of tools over the bridge.

use vstd::prelude::*;

use crate::bridge::calls::{
    announced_tools_are_known, argument_shape, bridge_diffs_from_agent_lsp, build_op, complete_op,
    diffs_json, edit_meta, execute_op, tool_of, ArgumentShape, BridgeDiff, LspBridgeOp, Outcome,
    ToolArguments, ToolOutput,
};
use crate::bridge::catalog::{tool_name, Tool};
use crate::bridge::protocol::JsonRpcError;
use crate::code_actions::{CodeActionStore, CodeActionsOutput, PendingCodeActions};
use crate::edits::{EditDiff, EditOperationOutput, EditOutput};
use crate::json::JsonView;
use crate::laws::buffers::{meta_tells_of_edit, shows_diff, tells_editor};
use crate::operations::Operation;

verus! {

/// The names of the tools.
pub open spec fn is_tool_name(name: Seq<char>) -> bool {
    ||| name == "lsp_find_references"@
    ||| name == "lsp_diagnostics"@
    ||| name == "lsp_rename_symbol"@
    ||| name == "lsp_format_document"@
    ||| name == "lsp_get_code_actions"@
    ||| name == "lsp_apply_code_action"@
    ||| name == "lsp_hover"@
    ||| name == "lsp_workspace_symbol"@
    ||| name == "lsp_list_language_servers"@
    ||| name == "lsp_restart_language_server"@
    ||| name == "read_buffer"@
    ||| name == "apply_text_edit"@
}

/// Every tool is known under its name, and no other name is known.
proof fn tools_are_known_by_name(name: Seq<char>)
    ensures
        tool_of(name) is Some <==> is_tool_name(name),
        tool_of("lsp_find_references"@) == Some(Tool::FindReferences),
        tool_of("lsp_diagnostics"@) == Some(Tool::Diagnostics),
        tool_of("lsp_rename_symbol"@) == Some(Tool::RenameSymbol),
        tool_of("lsp_format_document"@) == Some(Tool::FormatDocument),
        tool_of("lsp_get_code_actions"@) == Some(Tool::GetCodeActions),
        tool_of("lsp_apply_code_action"@) == Some(Tool::ApplyCodeAction),
        tool_of("lsp_hover"@) == Some(Tool::Hover),
        tool_of("lsp_workspace_symbol"@) == Some(Tool::WorkspaceSymbol),
        tool_of("lsp_list_language_servers"@) == Some(Tool::ListLanguageServers),
        tool_of("lsp_restart_language_server"@) == Some(Tool::RestartLanguageServer),
        tool_of("read_buffer"@) == Some(Tool::ReadBuffer),
        tool_of("apply_text_edit"@) == Some(Tool::ApplyTextEdit),
{
    announced_tools_are_known(Tool::FindReferences);
    announced_tools_are_known(Tool::Diagnostics);
    announced_tools_are_known(Tool::RenameSymbol);
    announced_tools_are_known(Tool::FormatDocument);
    announced_tools_are_known(Tool::GetCodeActions);
    announced_tools_are_known(Tool::ApplyCodeAction);
    announced_tools_are_known(Tool::Hover);
    announced_tools_are_known(Tool::WorkspaceSymbol);
    announced_tools_are_known(Tool::ListLanguageServers);
    announced_tools_are_known(Tool::RestartLanguageServer);
    announced_tools_are_known(Tool::ReadBuffer);
    announced_tools_are_known(Tool::ApplyTextEdit);
    if let Some(tool) = tool_of(name) {
        assert(tool_name(tool) == name);
    }
}

/// The arguments of a call are read in the form that the tool takes.
pub proof fn arguments_are_read_by_tool(name: &str, shape: ArgumentShape)
    requires
        call_ensures(argument_shape, (name,), shape),
    ensures
        name@ == "lsp_find_references"@ || name@ == "lsp_get_code_actions"@ || name@ == "lsp_hover"@
            ==> shape is Symbol,
        name@ == "lsp_diagnostics"@ ==> shape is Diagnostics,
        name@ == "lsp_rename_symbol"@ ==> shape is Rename,
        name@ == "lsp_format_document"@ ==> shape is File,
        name@ == "lsp_apply_code_action"@ ==> shape is Index,
        name@ == "lsp_workspace_symbol"@ ==> shape is Query,
        name@ == "lsp_restart_language_server"@ ==> shape is Restart,
        name@ == "read_buffer"@ ==> shape is ReadBuffer,
        name@ == "apply_text_edit"@ ==> shape is ApplyTextEdit,
        name@ == "lsp_list_language_servers"@ || !is_tool_name(name@) ==> shape is Any,
{
    tools_are_known_by_name(name@);
}

/// The operation that is built for a tool is that of its name, and carries every argument under its
/// own name.
pub proof fn arguments_reach_the_operation(
    name: &str,
    arguments: ToolArguments,
    r: Result<LspBridgeOp, JsonRpcError>,
)
    requires
        call_ensures(build_op, (name, Ok::<ToolArguments, String>(arguments)), r),
    ensures
        arguments matches ToolArguments::Symbol { file_path, line, symbol_name } ==> {
            &&& (name@ == "lsp_find_references"@ ==> (r matches Ok(
                LspBridgeOp::FindReferences { file_path: f, line: l, symbol_name: s },
            ) && f == file_path && l == line && s == symbol_name))
            &&& (name@ == "lsp_get_code_actions"@ ==> (r matches Ok(
                LspBridgeOp::GetCodeActions { file_path: f, line: l, symbol_name: s },
            ) && f == file_path && l == line && s == symbol_name))
            &&& (name@ == "lsp_hover"@ ==> (r matches Ok(
                LspBridgeOp::Hover { file_path: f, line: l, symbol_name: s },
            ) && f == file_path && l == line && s == symbol_name))
        },
        arguments matches ToolArguments::Diagnostics { path, min_severity } ==> name@
            == "lsp_diagnostics"@ ==> (r matches Ok(
            LspBridgeOp::Diagnostics { path: p, min_severity: m },
        ) && p == path && m == min_severity),
        arguments matches ToolArguments::Rename { file_path, line, symbol_name, new_name } ==> name@
            == "lsp_rename_symbol"@ ==> (r matches Ok(
            LspBridgeOp::RenameSymbol { file_path: f, line: l, symbol_name: s, new_name: n },
        ) && f == file_path && l == line && s == symbol_name && n == new_name),
        arguments matches ToolArguments::ReadBuffer { file_path, start_line, end_line } ==> name@
            == "read_buffer"@ ==> (r matches Ok(
            LspBridgeOp::ReadBuffer { file_path: f, start_line: s, end_line: e },
        ) && f == file_path && s == start_line && e == end_line),
        arguments matches ToolArguments::ApplyTextEdit { file_path, old_string, new_string } ==> name@
            == "apply_text_edit"@ ==> (r matches Ok(
            LspBridgeOp::ApplyTextEdit { file_path: f, old_string: o, new_string: n },
        ) && f == file_path && o == old_string && n == new_string),
        arguments matches ToolArguments::File { file_path } ==> name@ == "lsp_format_document"@ ==> (
        r matches Ok(LspBridgeOp::FormatDocument { file_path: f }) && f == file_path),
        arguments matches ToolArguments::Index { index } ==> name@ == "lsp_apply_code_action"@ ==> (
        r matches Ok(LspBridgeOp::ApplyCodeAction { index: i }) && i == index),
        arguments matches ToolArguments::Query { query } ==> name@ == "lsp_workspace_symbol"@ ==> (
        r matches Ok(LspBridgeOp::WorkspaceSymbol { query: q }) && q == query),
        arguments matches ToolArguments::Restart { name: server, reason } ==> name@
            == "lsp_restart_language_server"@ ==> (r matches Ok(
            LspBridgeOp::RestartLanguageServer { name: n, reason: w },
        ) && n == server && w == reason),
        name@ == "lsp_list_language_servers"@ ==> r matches Ok(LspBridgeOp::ListLanguageServers),
{
    tools_are_known_by_name(name@);
}

/// A tool that there is not is refused by its name, and arguments that could not be read are refused
/// with the reason; only the tool that takes none does not mind.
pub proof fn bad_calls_are_refused(
    name: &str,
    arguments: Result<ToolArguments, String>,
    r: Result<LspBridgeOp, JsonRpcError>,
)
    requires
        call_ensures(build_op, (name, arguments), r),
    ensures
        !is_tool_name(name@) ==> (r matches Err(e) && e.code == -32601 && e.message@
            == "unknown tool: "@ + name@),
        is_tool_name(name@) && name@ != "lsp_list_language_servers"@ ==> (arguments matches Err(
            reason,
        ) ==> r matches Err(e) && e.code == -32602 && e.message@ == "bad arguments: "@ + reason@),
        name@ == "lsp_list_language_servers"@ ==> r matches Ok(LspBridgeOp::ListLanguageServers),
{
    tools_are_known_by_name(name@);
    if is_tool_name(name@) && tool_of(name@) == Some(Tool::ListLanguageServers) {
        assert(tool_name(Tool::ListLanguageServers) == name@);
    }
}

/// An operation that is started is the one that was asked for, with every argument in its place.
pub proof fn operations_are_carried_out_as_asked(op: LspBridgeOp)
    ensures
        forall|store: &mut CodeActionStore, r: Result<Operation, String>| #[trigger]
            call_ensures(execute_op, (true, store, op), r) ==> {
                &&& (op matches LspBridgeOp::FindReferences { file_path, line, symbol_name } ==> (
                r matches Ok(Operation::FindReferences(symbol)) && symbol.file_path == file_path
                    && symbol.line == line && symbol.symbol_name == symbol_name))
                &&& (op matches LspBridgeOp::Hover { file_path, line, symbol_name } ==> (r matches Ok(
                    Operation::Hover(symbol),
                ) && symbol.file_path == file_path && symbol.line == line && symbol.symbol_name
                    == symbol_name))
                &&& (op matches LspBridgeOp::GetCodeActions { file_path, line, symbol_name } ==> (
                r matches Ok(Operation::GetCodeActions { symbol, apply_tool_name })
                    && symbol.file_path == file_path && symbol.line == line && symbol.symbol_name
                    == symbol_name && apply_tool_name@ == "lsp_apply_code_action"@))
                &&& (op matches LspBridgeOp::RenameSymbol {
                    file_path,
                    line,
                    symbol_name,
                    new_name,
                } ==> (r matches Ok(Operation::RenameSymbol { symbol, new_name: n })
                    && symbol.file_path == file_path && symbol.line == line && symbol.symbol_name
                    == symbol_name && n == new_name))
                &&& (op matches LspBridgeOp::Diagnostics { path, min_severity } ==> (r matches Ok(
                    Operation::Diagnostics { path: p, min_severity: m },
                ) && p == path && m == min_severity))
                &&& (op matches LspBridgeOp::ReadBuffer { file_path, start_line, end_line } ==> (
                r matches Ok(Operation::ReadBuffer { file_path: f, start_line: s, end_line: e }) && f
                    == file_path && s == start_line && e == end_line))
                &&& (op matches LspBridgeOp::ApplyTextEdit { file_path, old_string, new_string } ==> (
                r matches Ok(Operation::ApplyTextEdit { file_path: f, old_string: o, new_string: n })
                    && f == file_path && o == old_string && n == new_string))
                &&& (op matches LspBridgeOp::FormatDocument { file_path } ==> (r matches Ok(
                    Operation::FormatDocument { file_path: f },
                ) && f == file_path))
                &&& (op matches LspBridgeOp::WorkspaceSymbol { query } ==> (r matches Ok(
                    Operation::WorkspaceSymbol { query: q },
                ) && q == query))
                &&& (op matches LspBridgeOp::RestartLanguageServer { name, reason } ==> (r matches Ok(
                    Operation::RestartLanguageServer { name: n, reason: w },
                ) && n == name && w == reason))
                &&& (op is ListLanguageServers ==> r matches Ok(Operation::ListLanguageServers))
                &&& (!(op is ApplyCodeAction) ==> final(store).pending == store.pending)
            },
        forall|store: &mut CodeActionStore, r: Result<Operation, String>| #[trigger]
            call_ensures(execute_op, (false, store, op), r) ==> {
                &&& r matches Err(error)
                &&& error@ == "project no longer available"@
                &&& final(store).pending == store.pending
            },
{
}

/// A code action is applied from the list that the agent was last shown, which is lent out for it.
/// Without a list there is nothing to apply.
pub proof fn actions_are_applied_from_the_list(index: u32)
    ensures
        forall|store: &mut CodeActionStore, r: Result<Operation, String>| #[trigger]
            call_ensures(execute_op, (true, store, LspBridgeOp::ApplyCodeAction { index }), r) ==> {
                &&& final(store).pending is None
                &&& match store.pending {
                    Some(shown) => r matches Ok(Operation::ApplyCodeAction { index: i, list }) && i
                        == index && list == shown,
                    None => r matches Err(error) && error@
                        == "No code actions cached. Call `lsp_get_code_actions` first."@,
                }
            },
{
}

/// A listing is kept, as it was shown, until the next listing or until one of its actions was
/// applied with success; an application that fails brings it back, unless a newer one has come.
pub proof fn lists_are_kept(
    output: CodeActionsOutput,
    list: PendingCodeActions,
    result: Result<EditOperationOutput, String>,
)
    ensures
        forall|store: &mut CodeActionStore, r: Result<ToolOutput, String>| #[trigger]
            call_ensures(complete_op, (store, Outcome::Listed(Ok(output))), r) ==> {
                &&& final(store).pending == output.pending
                &&& r matches Ok(ToolOutput::Text(text)) && text == output.text
            },
        forall|store: &mut CodeActionStore, r: Result<ToolOutput, String>| #[trigger]
            call_ensures(complete_op, (store, Outcome::Applied { list, result }), r) ==> {
                &&& (store.pending is Some ==> final(store).pending == store.pending)
                &&& (store.pending is None && result is Ok ==> final(store).pending is None)
                &&& (store.pending is None && result is Err ==> final(store).pending == Some(list))
            },
{
}

/// Nothing but listings and applications changes the list that is kept, and an operation that
/// answers or fails does so in its own words.
pub proof fn outcomes_are_passed_on(outcome: Outcome)
    ensures
        forall|store: &mut CodeActionStore, r: Result<ToolOutput, String>| #[trigger]
            call_ensures(complete_op, (store, outcome), r) ==> {
                &&& (outcome is Answered || outcome is Produced || outcome is Changed || outcome
                    is Listed && outcome->Listed_0 is Err ==> final(store).pending == store.pending)
                &&& (outcome matches Outcome::Answered(Ok(text)) ==> r matches Ok(ToolOutput::Text(t))
                    && t == text)
                &&& (outcome matches Outcome::Produced(result) ==> r == result)
                &&& (outcome matches Outcome::Answered(Err(error)) ==> r matches Err(e) && e == error)
                &&& (outcome matches Outcome::Changed(Err(error)) ==> r matches Err(e) && e == error)
                &&& (outcome matches Outcome::Listed(Err(error)) ==> r matches Err(e) && e == error)
                &&& (outcome matches Outcome::Applied { result: Err(error), .. } ==> r matches Err(e)
                    && e == error)
                &&& (outcome matches Outcome::Changed(Ok(EditOperationOutput::Text(text)))
                    ==> r matches Ok(ToolOutput::Text(t)) && t == text)
                &&& (outcome matches Outcome::Applied {
                    result: Ok(EditOperationOutput::Text(text)),
                    ..
                } ==> r matches Ok(ToolOutput::Text(t)) && t == text)
            },
{
}

/// The output shows the changes of an operation: the agent reads its summary, and the editor is shown
/// every diff, in order.
pub open spec fn shows_changes(output: ToolOutput, edited: EditOutput) -> bool {
    &&& output matches ToolOutput::Rich { text, meta }
    &&& text@ == edited.text@
    &&& tells_editor(meta.view(), "kind"@, JsonView::Text("edit"@))
    &&& exists|items: Seq<JsonView>|
        {
            &&& #[trigger] tells_editor(meta.view(), "diffs"@, JsonView::Array(items))
            &&& items.len() == edited.diffs@.len()
            &&& (forall|i: int|
                0 <= i < items.len() ==> shows_diff(
                    #[trigger] items[i],
                    edited.diffs@[i].path@,
                    edited.diffs@[i].abs_path@,
                    edited.diffs@[i].line,
                    edited.diffs@[i].old_text@,
                    edited.diffs@[i].new_text@,
                ))
        }
}

proof fn changes_are_seen(output: ToolOutput, edited: EditOutput)
    requires
        crate::bridge::calls::shows(output, EditOperationOutput::Edited(edited)),
    ensures
        shows_changes(output, edited),
{
    let meta = output->meta.view();
    let diffs = choose|diffs: Seq<BridgeDiff>|
        {
            &&& diffs.len() == edited.diffs@.len()
            &&& (forall|i: int|
                0 <= i < diffs.len() ==> crate::bridge::calls::is_diff_of(
                    #[trigger] diffs[i],
                    edited.diffs@[i],
                ))
            &&& meta == #[trigger] edit_meta(diffs)
        };
    meta_tells_of_edit(diffs);
    let items = diffs_json(diffs)->Array_0;
    assert(tells_editor(meta, "diffs"@, JsonView::Array(items)));
    assert forall|i: int| 0 <= i < items.len() implies shows_diff(
        #[trigger] items[i],
        edited.diffs@[i].path@,
        edited.diffs@[i].abs_path@,
        edited.diffs@[i].line,
        edited.diffs@[i].old_text@,
        edited.diffs@[i].new_text@,
    ) by {
        assert(crate::bridge::calls::is_diff_of(diffs[i], edited.diffs@[i]));
    }
}

/// Operations that changed files show what they changed, whether they were asked for or picked from
/// a list.
pub proof fn changes_are_shown(edited: EditOutput, list: PendingCodeActions)
    ensures
        forall|store: &mut CodeActionStore, r: Result<ToolOutput, String>| #[trigger]
            call_ensures(
                complete_op,
                (store, Outcome::Changed(Ok(EditOperationOutput::Edited(edited)))),
                r,
            ) ==> (r matches Ok(output) && shows_changes(output, edited)),
        forall|store: &mut CodeActionStore, r: Result<ToolOutput, String>| #[trigger]
            call_ensures(
                complete_op,
                (store, Outcome::Applied { list, result: Ok(EditOperationOutput::Edited(edited)) }),
                r,
            ) ==> (r matches Ok(output) && shows_changes(output, edited)),
{
    assert forall|store: &mut CodeActionStore, r: Result<ToolOutput, String>| #[trigger]
        call_ensures(
            complete_op,
            (store, Outcome::Changed(Ok(EditOperationOutput::Edited(edited)))),
            r,
        ) implies (r matches Ok(output) && shows_changes(output, edited)) by {
        changes_are_seen(r->Ok_0, edited);
    }
    assert forall|store: &mut CodeActionStore, r: Result<ToolOutput, String>| #[trigger]
        call_ensures(
            complete_op,
            (store, Outcome::Applied { list, result: Ok(EditOperationOutput::Edited(edited)) }),
            r,
        ) implies (r matches Ok(output) && shows_changes(output, edited)) by {
        changes_are_seen(r->Ok_0, edited);
    }
}

/// The diffs of changed files are handed on one for one, with nothing changed in them.
pub proof fn diffs_are_handed_on(changes: Vec<EditDiff>, diffs: Vec<BridgeDiff>)
    requires
        call_ensures(bridge_diffs_from_agent_lsp, (changes,), diffs),
    ensures
        diffs@.len() == changes@.len(),
        forall|i: int|
            0 <= i < changes@.len() ==> {
                &&& (#[trigger] diffs@[i]).path == changes@[i].path
                &&& diffs@[i].abs_path == changes@[i].abs_path
                &&& diffs@[i].line == changes@[i].line
                &&& diffs@[i].old_text == changes@[i].old_text
                &&& diffs@[i].new_text == changes@[i].new_text
            },
{
}

} // verus!
