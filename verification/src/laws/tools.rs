//! Laws on the tools of the editor's own agent.

use vstd::prelude::*;

use crate::code_actions::CodeActionStore;
use crate::edits::{EditOperationOutput, EditOutput};
use crate::operations::Operation;
use crate::text::decimal;
use crate::tools::{
    ApplyCodeActionTool, ApplyCodeActionToolInput, DiagnosticsEnd, DiagnosticsTool,
    DiagnosticsToolInput, FormatDocumentTool, FormatDocumentToolInput, HoverTool, HoverToolInput,
    ListLanguageServersTool, ListLanguageServersToolInput, LspEditDiff, LspEditToolOutput, RenameTool,
    RenameToolInput, RestartLanguageServerTool, RestartLanguageServerToolInput, WorkspaceSymbolTool,
    WorkspaceSymbolToolInput,
};

verus! {

/// The diffs of a change are those that are displayed, one for one, with the text before and after.
pub proof fn diffs_are_displayed(
    edited: EditOutput,
    shown: LspEditToolOutput,
    text: &str,
    diffs: &[LspEditDiff],
)
    requires
        call_ensures(
            LspEditToolOutput::from_agent_lsp,
            (EditOperationOutput::Edited(edited),),
            shown,
        ),
        call_ensures(LspEditToolOutput::text, (&shown,), text),
        call_ensures(LspEditToolOutput::emit_diffs, (&shown,), diffs),
    ensures
        text@ == edited.text@,
        diffs@.len() == edited.diffs@.len(),
        forall|i: int|
            0 <= i < diffs@.len() ==> {
                &&& (#[trigger] diffs@[i]).path@ == edited.diffs@[i].path@
                &&& diffs@[i].old_text@ == edited.diffs@[i].old_text@
                &&& diffs@[i].new_text@ == edited.diffs@[i].new_text@
            },
{
    assert forall|i: int| 0 <= i < diffs@.len() implies {
        &&& (#[trigger] diffs@[i]).path@ == edited.diffs@[i].path@
        &&& diffs@[i].old_text@ == edited.diffs@[i].old_text@
        &&& diffs@[i].new_text@ == edited.diffs@[i].new_text@
    } by {
        let all = shown->diffs;
        assert(crate::tools::is_edit_diff_of(all@[i], edited.diffs@[i]));
    }
}

/// What only says something is shown as that, without diffs; a failure is shown in its own words.
pub proof fn texts_are_shown(
    said: String,
    shown: LspEditToolOutput,
    text: &str,
    diffs: &[LspEditDiff],
    failed: Result<LspEditToolOutput, LspEditToolOutput>,
)
    requires
        call_ensures(LspEditToolOutput::from_agent_lsp, (EditOperationOutput::Text(said),), shown),
        call_ensures(LspEditToolOutput::text, (&shown,), text),
        call_ensures(LspEditToolOutput::emit_diffs, (&shown,), diffs),
        call_ensures(
            LspEditToolOutput::of_result,
            (Err::<EditOperationOutput, String>(said),),
            failed,
        ),
    ensures
        text@ == said@,
        diffs@.len() == 0,
        failed matches Err(LspEditToolOutput::Text(t)) && t@ == said@,
{
}

/// A tool carries out the operation of its name, with the input that it was given.
pub proof fn tools_carry_out_their_input(
    asked: DiagnosticsToolInput,
    diagnostics: Result<Operation, String>,
    format: FormatDocumentToolInput,
    formatting: Result<Operation, LspEditToolOutput>,
    hover: HoverToolInput,
    hovering: Result<Operation, String>,
    rename: RenameToolInput,
    renaming: Result<Operation, LspEditToolOutput>,
    restart: RestartLanguageServerToolInput,
    restarting: Result<Operation, String>,
    search: WorkspaceSymbolToolInput,
    searching: Result<Operation, String>,
)
    requires
        call_ensures(
            DiagnosticsTool::run,
            (Ok::<DiagnosticsToolInput, String>(asked),),
            diagnostics,
        ),
        call_ensures(
            FormatDocumentTool::run,
            (Ok::<FormatDocumentToolInput, String>(format),),
            formatting,
        ),
        call_ensures(HoverTool::run, (Ok::<HoverToolInput, String>(hover),), hovering),
        call_ensures(RenameTool::run, (Ok::<RenameToolInput, String>(rename),), renaming),
        call_ensures(
            RestartLanguageServerTool::run,
            (Ok::<RestartLanguageServerToolInput, String>(restart),),
            restarting,
        ),
        call_ensures(
            WorkspaceSymbolTool::run,
            (Ok::<WorkspaceSymbolToolInput, String>(search),),
            searching,
        ),
    ensures
        diagnostics matches Ok(Operation::Diagnostics { path, min_severity }) && path == asked.path
            && min_severity == asked.min_severity,
        formatting matches Ok(Operation::FormatDocument { file_path }) && file_path
            == format.file_path,
        hovering matches Ok(Operation::Hover(symbol)) && symbol == hover.symbol,
        renaming matches Ok(Operation::RenameSymbol { symbol, new_name }) && symbol == rename.symbol
            && new_name == rename.new_name,
        restarting matches Ok(Operation::RestartLanguageServer { name, reason }) && name
            == restart.name && reason == restart.reason,
        searching matches Ok(Operation::WorkspaceSymbol { query }) && query == search.query,
{
}

/// A tool whose input did not arrive does nothing and says why.
pub proof fn lost_input_is_told(
    error: String,
    diagnostics: Result<Operation, String>,
    formatting: Result<Operation, LspEditToolOutput>,
    hovering: Result<Operation, String>,
    listing: Result<Operation, String>,
    renaming: Result<Operation, LspEditToolOutput>,
    restarting: Result<Operation, String>,
    searching: Result<Operation, String>,
)
    requires
        call_ensures(DiagnosticsTool::run, (Err::<DiagnosticsToolInput, String>(error),), diagnostics),
        call_ensures(
            FormatDocumentTool::run,
            (Err::<FormatDocumentToolInput, String>(error),),
            formatting,
        ),
        call_ensures(HoverTool::run, (Err::<HoverToolInput, String>(error),), hovering),
        call_ensures(
            ListLanguageServersTool::run,
            (Err::<ListLanguageServersToolInput, String>(error),),
            listing,
        ),
        call_ensures(RenameTool::run, (Err::<RenameToolInput, String>(error),), renaming),
        call_ensures(
            RestartLanguageServerTool::run,
            (Err::<RestartLanguageServerToolInput, String>(error),),
            restarting,
        ),
        call_ensures(
            WorkspaceSymbolTool::run,
            (Err::<WorkspaceSymbolToolInput, String>(error),),
            searching,
        ),
    ensures
        diagnostics matches Err(e) && e@ == error@,
        formatting matches Err(LspEditToolOutput::Text(e)) && e@ == "Failed to receive tool input: "@
            + error@,
        hovering matches Err(e) && e@ == "Failed to receive tool input: "@ + error@,
        listing matches Err(e) && e@ == "Failed to receive tool input: "@ + error@,
        renaming matches Err(LspEditToolOutput::Text(e)) && e@ == "Failed to receive tool input: "@
            + error@,
        restarting matches Err(e) && e@ == "Failed to receive tool input: "@ + error@,
        searching matches Err(e) && e@ == "Failed to receive tool input: "@ + error@,
{
}

/// The title of a call to apply a code action names the action of the number where the list that is
/// kept has one, and else the number.
pub proof fn titles_name_the_action(
    store: &CodeActionStore,
    input: &ApplyCodeActionToolInput,
    title: String,
)
    requires
        call_ensures(ApplyCodeActionTool::initial_title, (store, Some(input)), title),
    ensures
        store.pending matches Some(list) ==> (1 <= input.index <= list.actions@.len() ==> title@
            == "Apply code action: "@ + list.actions@[input.index - 1].title@),
        store.pending is None || input.index == 0 || input.index > (store.pending->0).actions@.len()
            ==> title@ == "Apply code action #"@ + decimal(input.index as nat),
{
}

/// A code action is applied from the list that is kept, which is cleared for it. Without a list there
/// is nothing to apply, and without input the list stays.
pub proof fn lists_are_applied_once(index: u32, error: String)
    ensures
        forall|store: &mut CodeActionStore, r: Result<Operation, LspEditToolOutput>| #[trigger]
            call_ensures(
                ApplyCodeActionTool::run,
                (
                    store,
                    Ok::<ApplyCodeActionToolInput, String>((ApplyCodeActionToolInput { index })),
                ),
                r,
            ) ==> {
                &&& final(store).pending is None
                &&& match store.pending {
                    Some(kept) => r matches Ok(Operation::ApplyCodeAction { index: i, list }) && i
                        == index && list == kept,
                    None => r matches Err(LspEditToolOutput::Text(e)) && e@
                        == "No code actions available. Call get_code_actions first."@,
                }
            },
        forall|store: &mut CodeActionStore, r: Result<Operation, LspEditToolOutput>| #[trigger]
            call_ensures(
                ApplyCodeActionTool::run,
                (store, Err::<ApplyCodeActionToolInput, String>(error)),
                r,
            ) ==> {
                &&& final(store).pending == store.pending
                &&& r matches Err(LspEditToolOutput::Text(e))
                &&& e@ == "Failed to receive tool input: "@ + error@
            },
{
}

/// A call for diagnostics ends as the operation did, unless the user cancels it.
pub proof fn diagnostics_end_or_are_cancelled(end: DiagnosticsEnd, r: Result<String, String>)
    requires
        call_ensures(DiagnosticsTool::finish, (end,), r),
    ensures
        end matches DiagnosticsEnd::Finished(result) ==> r == result,
        end is CancelledByUser ==> (r matches Err(e) && e@ == "Diagnostics cancelled by user"@),
{
}

/// The title of a call names what it is about: the symbol, the names, the server, the query or the
/// path. Without an input it says what the tool does.
pub proof fn titles_name_the_subject(
    hover: &HoverToolInput,
    rename: &RenameToolInput,
    restart: &RestartLanguageServerToolInput,
    search: &WorkspaceSymbolToolInput,
    inline_path: &str,
    hovering: String,
    renaming: String,
    restarting: String,
    searching: String,
    checking: String,
    formatting: String,
)
    requires
        call_ensures(HoverTool::initial_title, (Some(hover),), hovering),
        call_ensures(RenameTool::initial_title, (Some(rename),), renaming),
        call_ensures(RestartLanguageServerTool::initial_title, (Some(restart),), restarting),
        call_ensures(WorkspaceSymbolTool::initial_title, (Some(search),), searching),
        call_ensures(DiagnosticsTool::initial_title, (Some(inline_path),), checking),
        call_ensures(FormatDocumentTool::initial_title, (Some(inline_path),), formatting),
    ensures
        hovering@ == "Get hover info for `"@ + hover.symbol.symbol_name@ + "`"@,
        renaming@ == "Rename `"@ + rename.symbol.symbol_name@ + "` to `"@ + rename.new_name@ + "`"@,
        restarting@ == "Restart language server `"@ + restart.name@ + "`"@,
        searching@ == "Search workspace symbols for `"@ + search.query@ + "`"@,
        checking@ == "Check diagnostics for "@ + inline_path@,
        formatting@ == "Format "@ + inline_path@,
{
}

/// The path in the title of a call for diagnostics is the one that is asked for; an empty one asks for
/// the project.
pub proof fn titles_name_the_path(input: &DiagnosticsToolInput, r: Option<&str>)
    requires
        call_ensures(DiagnosticsTool::title_path, (Some(input),), r),
    ensures
        r is Some <==> input.path is Some && (input.path->0)@.len() > 0,
        r matches Some(path) ==> path@ == (input.path->0)@,
{
}

} // verus!
