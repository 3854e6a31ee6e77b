//! The tools of the editor's own agent: how each is called, shown and carried out.

use vstd::prelude::*;
use vstd::string::*;

use crate::code_actions::{action_index, CodeActionStore};
use crate::edits::{EditDiff, EditOperationOutput};
use crate::operations::Operation;
use crate::symbol::SymbolLocator;
use crate::text::{concat2, concat3, concat5, decimal, decimal_text};

verus! {

/// How calls of a tool are displayed.
#[derive(Clone, Copy, Debug, PartialEq, Eq, Structural)]
pub enum ToolKind {
    Read,
    Edit,
    Search,
    Other,
}

/// The message that the input of a tool did not arrive.
pub open spec fn input_lost(error: Seq<char>) -> Seq<char> {
    "Failed to receive tool input: "@ + error
}

/// The message that the input of a tool did not arrive.
fn lost(error: &str) -> (r: String)
    ensures
        r@ == input_lost(error@),
{
    concat2("Failed to receive tool input: ", error)
}

/// One file before and after a tool changed it.
#[derive(Clone, Debug)]
pub struct LspEditDiff {
    pub path: String,
    pub old_text: String,
    pub new_text: String,
}

/// The diff shows the change.
pub open spec fn is_edit_diff_of(diff: LspEditDiff, change: EditDiff) -> bool {
    &&& diff.path == change.path
    &&& diff.old_text == change.old_text
    &&& diff.new_text == change.new_text
}

/// What a tool that may change files has to show.
#[derive(Debug)]
pub enum LspEditToolOutput {
    Text(String),
    Edited { text: String, diffs: Vec<LspEditDiff> },
}

impl LspEditToolOutput {
    /// The text that the agent reads.
    pub open spec fn spec_text(&self) -> Seq<char> {
        match self {
            LspEditToolOutput::Text(text) => text@,
            LspEditToolOutput::Edited { text, .. } => text@,
        }
    }

    /// The diffs that are displayed.
    pub open spec fn spec_diffs(&self) -> Seq<LspEditDiff> {
        match self {
            LspEditToolOutput::Text(_) => Seq::empty(),
            LspEditToolOutput::Edited { diffs, .. } => diffs@,
        }
    }

    /// The output shows what the operation has to show.
    pub open spec fn is_of(&self, output: EditOperationOutput) -> bool {
        match output {
            EditOperationOutput::Text(text) => *self == LspEditToolOutput::Text(text),
            EditOperationOutput::Edited(edited) => {
                &&& self matches LspEditToolOutput::Edited { text, diffs }
                &&& text == edited.text
                &&& diffs@.len() == edited.diffs@.len()
                &&& forall|i: int|
                    0 <= i < diffs@.len() ==> is_edit_diff_of(#[trigger] diffs@[i], edited.diffs@[i])
            },
        }
    }

    /// The output of a tool, of that of the operation that it carried out.
    pub fn from_agent_lsp(output: EditOperationOutput) -> (r: Self)
        ensures
            r.is_of(output),
    {
        match output {
            EditOperationOutput::Text(text) => LspEditToolOutput::Text(text),
            EditOperationOutput::Edited(output) => {
                let ghost all = output.diffs@;
                let mut diffs: Vec<LspEditDiff> = Vec::new();
                for diff in it: output.diffs
                    invariant
                        it.seq() == all,
                        diffs@.len() == it.index(),
                        forall|i: int|
                            0 <= i < diffs@.len() ==> is_edit_diff_of(#[trigger] diffs@[i], all[i]),
                {
                    diffs.push(
                        LspEditDiff {
                            path: diff.path,
                            old_text: diff.old_text,
                            new_text: diff.new_text,
                        },
                    );
                }
                LspEditToolOutput::Edited { text: output.text, diffs }
            },
        }
    }

    /// The text that the agent reads.
    pub fn text(&self) -> (r: &str)
        ensures
            r@ == self.spec_text(),
    {
        match self {
            LspEditToolOutput::Text(text) => text.as_str(),
            LspEditToolOutput::Edited { text, .. } => text.as_str(),
        }
    }

    /// The diffs to display, both when the tool has run and when a session is shown again.
    pub fn emit_diffs(&self) -> (r: &[LspEditDiff])
        ensures
            r@ == self.spec_diffs(),
    {
        match self {
            LspEditToolOutput::Text(_) => {
                let r: &[LspEditDiff] = &[];
                assert(r@ =~= Seq::empty());
                r
            },
            LspEditToolOutput::Edited { diffs, .. } => diffs.as_slice(),
        }
    }

    /// The outcome of a tool, of that of the operation that it carried out.
    pub fn of_result(result: Result<EditOperationOutput, String>) -> (r: Result<Self, Self>)
        ensures
            match result {
                Ok(output) => r matches Ok(shown) && shown.is_of(output),
                Err(error) => r == Err::<Self, Self>(LspEditToolOutput::Text(error)),
            },
    {
        match result {
            Ok(output) => Ok(LspEditToolOutput::from_agent_lsp(output)),
            Err(error) => Err(LspEditToolOutput::Text(error)),
        }
    }
}

/// The number of a code action, from the list that was made before.
#[derive(Clone, Debug)]
pub struct ApplyCodeActionToolInput {
    /// The 1-based index of the code action to apply, from the list returned by get_code_actions.
    pub index: u32,
}

/// Applies a code action previously retrieved by get_code_actions. The list is cleared: another
/// action takes another list.
pub struct ApplyCodeActionTool {}

impl ApplyCodeActionTool {
    pub fn name() -> (r: &'static str)
        ensures
            r@ == "apply_code_action"@,
    {
        "apply_code_action"
    }

    pub fn kind() -> (r: ToolKind)
        ensures
            r == ToolKind::Other,
    {
        ToolKind::Other
    }

    /// The title of a call: it names the action where the list that is kept holds one of the number.
    pub fn initial_title(store: &CodeActionStore, input: Option<&ApplyCodeActionToolInput>) -> (r:
        String)
        ensures
            r@ == match input {
                None => "Apply code action"@,
                Some(input) => {
                    let numbered = "Apply code action #"@ + decimal(input.index as nat);
                    match store.pending {
                        None => numbered,
                        Some(list) => match action_index(input.index, list.actions@.len()) {
                            Some(i) => "Apply code action: "@ + list.actions@[i].title@,
                            None => numbered,
                        },
                    }
                },
            },
    {
        match input {
            None => "Apply code action".to_string(),
            Some(input) => {
                if let Some(list) = &store.pending {
                    if input.index >= 1 {
                        let i: usize = (input.index - 1) as usize;
                        if i < list.actions.len() {
                            return concat2(
                                "Apply code action: ",
                                list.actions[i].title.as_str(),
                            );
                        }
                    }
                }
                concat2("Apply code action #", decimal_text(input.index as u64).as_str())
            },
        }
    }

    /// Begins a call: it takes the input and the list that is kept, which leaves the store for good.
    pub fn run(store: &mut CodeActionStore, input: Result<ApplyCodeActionToolInput, String>) -> (r:
        Result<Operation, LspEditToolOutput>)
        ensures
            match input {
                Err(error) => {
                    &&& r matches Err(LspEditToolOutput::Text(text))
                    &&& text@ == input_lost(error@)
                    &&& final(store).pending == old(store).pending
                },
                Ok(input) => {
                    &&& final(store).pending is None
                    &&& match old(store).pending {
                        Some(list) => r == Ok::<Operation, LspEditToolOutput>(
                            Operation::ApplyCodeAction { index: input.index, list },
                        ),
                        None => r matches Err(LspEditToolOutput::Text(text)) && text@
                            == "No code actions available. Call get_code_actions first."@,
                    }
                },
            },
    {
        match input {
            Err(error) => Err(LspEditToolOutput::Text(lost(error.as_str()))),
            Ok(input) => match store.lend(
                "No code actions available. Call get_code_actions first.",
            ) {
                Ok(list) => Ok(Operation::ApplyCodeAction { index: input.index, list }),
                Err(error) => Err(LspEditToolOutput::Text(error)),
            },
        }
    }
}

/// What diagnostics are asked for.
#[derive(Debug)]
pub struct DiagnosticsToolInput {
    /// The path to get diagnostics for. If not provided, returns a project-wide summary.
    pub path: Option<String>,
    /// Minimum severity to report for a per-file query: "error", "warning", "information", or
    /// "hint". Defaults to "warning". Ignored for the project-wide summary.
    pub min_severity: Option<String>,
}

/// How a call of the diagnostics tool ended.
pub enum DiagnosticsEnd {
    Finished(Result<String, String>),
    CancelledByUser,
}

/// Gets errors and warnings for the project or a specific file.
pub struct DiagnosticsTool {}

impl DiagnosticsTool {
    pub fn name() -> (r: &'static str)
        ensures
            r@ == "diagnostics"@,
    {
        "diagnostics"
    }

    pub fn kind() -> (r: ToolKind)
        ensures
            r == ToolKind::Read,
    {
        ToolKind::Read
    }

    /// The path that the title names: none where the whole project is asked for.
    pub fn title_path(input: Option<&DiagnosticsToolInput>) -> (r: Option<&str>)
        ensures
            match input {
                Some(DiagnosticsToolInput { path: Some(path), .. }) => if path@.len() > 0 {
                    r matches Some(p) && p@ == path@
                } else {
                    r is None
                },
                _ => r is None,
            },
    {
        match input {
            Some(input) => match &input.path {
                Some(path) => if !crate::text::same_text(path.as_str(), "") {
                    proof {
                        reveal_strlit("");
                        assert(path@.len() == 0 ==> path@ =~= ""@);
                    }
                    Some(path.as_str())
                } else {
                    proof {
                        reveal_strlit("");
                    }
                    None
                },
                None => None,
            },
            None => None,
        }
    }

    /// The title of a call, given the path that it names as inline code.
    pub fn initial_title(inline_path: Option<&str>) -> (r: String)
        ensures
            r@ == match inline_path {
                Some(path) => "Check diagnostics for "@ + path@,
                None => "Check project diagnostics"@,
            },
    {
        match inline_path {
            Some(path) => concat2("Check diagnostics for ", path),
            None => "Check project diagnostics".to_string(),
        }
    }

    /// Begins a call.
    pub fn run(input: Result<DiagnosticsToolInput, String>) -> (r: Result<Operation, String>)
        ensures
            r == match input {
                Ok(input) => Ok::<Operation, String>(
                    Operation::Diagnostics { path: input.path, min_severity: input.min_severity },
                ),
                Err(error) => Err(error),
            },
    {
        match input {
            Ok(input) => Ok(
                Operation::Diagnostics { path: input.path, min_severity: input.min_severity },
            ),
            Err(error) => Err(error),
        }
    }

    /// Ends a call.
    pub fn finish(end: DiagnosticsEnd) -> (r: Result<String, String>)
        ensures
            match end {
                DiagnosticsEnd::Finished(result) => r == result,
                DiagnosticsEnd::CancelledByUser => r matches Err(error) && error@
                    == "Diagnostics cancelled by user"@,
            },
    {
        match end {
            DiagnosticsEnd::Finished(result) => result,
            DiagnosticsEnd::CancelledByUser => Err("Diagnostics cancelled by user".to_string()),
        }
    }
}

/// The file to format.
#[derive(Clone, Debug)]
pub struct FormatDocumentToolInput {
    /// Project-relative path of the file to format.
    pub file_path: String,
}

/// Formats a project file using the formatter that is configured for its language.
pub struct FormatDocumentTool {}

impl FormatDocumentTool {
    pub fn name() -> (r: &'static str)
        ensures
            r@ == "format_document"@,
    {
        "format_document"
    }

    pub fn kind() -> (r: ToolKind)
        ensures
            r == ToolKind::Edit,
    {
        ToolKind::Edit
    }

    /// The title of a call, given the path of the file as inline code.
    pub fn initial_title(inline_path: Option<&str>) -> (r: String)
        ensures
            r@ == match inline_path {
                Some(path) => "Format "@ + path@,
                None => "Format document"@,
            },
    {
        match inline_path {
            Some(path) => concat2("Format ", path),
            None => "Format document".to_string(),
        }
    }

    /// Begins a call.
    pub fn run(input: Result<FormatDocumentToolInput, String>) -> (r: Result<
        Operation,
        LspEditToolOutput,
    >)
        ensures
            match input {
                Ok(input) => r == Ok::<Operation, LspEditToolOutput>(
                    Operation::FormatDocument { file_path: input.file_path },
                ),
                Err(error) => r matches Err(LspEditToolOutput::Text(text)) && text@ == input_lost(
                    error@,
                ),
            },
    {
        match input {
            Ok(input) => Ok(Operation::FormatDocument { file_path: input.file_path }),
            Err(error) => Err(LspEditToolOutput::Text(lost(error.as_str()))),
        }
    }
}

/// The symbol of which hover information is asked for.
#[derive(Clone, Debug)]
pub struct HoverToolInput {
    pub symbol: SymbolLocator,
}

/// Gets hover information for a symbol using the language server.
pub struct HoverTool {}

impl HoverTool {
    pub fn name() -> (r: &'static str)
        ensures
            r@ == "hover"@,
    {
        "hover"
    }

    pub fn kind() -> (r: ToolKind)
        ensures
            r == ToolKind::Read,
    {
        ToolKind::Read
    }

    /// The title of a call.
    pub fn initial_title(input: Option<&HoverToolInput>) -> (r: String)
        ensures
            r@ == match input {
                Some(input) => "Get hover info for `"@ + input.symbol.symbol_name@ + "`"@,
                None => "Get hover info"@,
            },
    {
        match input {
            Some(input) => concat3(
                "Get hover info for `",
                input.symbol.symbol_name.as_str(),
                "`",
            ),
            None => "Get hover info".to_string(),
        }
    }

    /// Begins a call.
    pub fn run(input: Result<HoverToolInput, String>) -> (r: Result<Operation, String>)
        ensures
            match input {
                Ok(input) => r == Ok::<Operation, String>(Operation::Hover(input.symbol)),
                Err(error) => r matches Err(text) && text@ == input_lost(error@),
            },
    {
        match input {
            Ok(input) => Ok(Operation::Hover(input.symbol)),
            Err(error) => Err(lost(error.as_str())),
        }
    }
}

/// The input of the tool that lists language servers: nothing.
#[derive(Clone, Debug)]
pub struct ListLanguageServersToolInput {}

/// Lists the language servers that are registered for the project, including name, worktree, and
/// running status.
pub struct ListLanguageServersTool {}

impl ListLanguageServersTool {
    pub fn name() -> (r: &'static str)
        ensures
            r@ == "list_language_servers"@,
    {
        "list_language_servers"
    }

    pub fn kind() -> (r: ToolKind)
        ensures
            r == ToolKind::Read,
    {
        ToolKind::Read
    }

    /// The title of a call.
    pub fn initial_title() -> (r: &'static str)
        ensures
            r@ == "List language servers"@,
    {
        "List language servers"
    }

    /// Begins a call.
    pub fn run(input: Result<ListLanguageServersToolInput, String>) -> (r: Result<Operation, String>)
        ensures
            match input {
                Ok(_) => r == Ok::<Operation, String>(Operation::ListLanguageServers),
                Err(error) => r matches Err(text) && text@ == input_lost(error@),
            },
    {
        match input {
            Ok(_) => Ok(Operation::ListLanguageServers),
            Err(error) => Err(lost(error.as_str())),
        }
    }
}

/// The symbol to rename, and its new name.
#[derive(Clone, Debug)]
pub struct RenameToolInput {
    pub symbol: SymbolLocator,
    pub new_name: String,
}

/// Renames a symbol across the project using the language server.
pub struct RenameTool {}

impl RenameTool {
    pub fn name() -> (r: &'static str)
        ensures
            r@ == "rename_symbol"@,
    {
        "rename_symbol"
    }

    pub fn kind() -> (r: ToolKind)
        ensures
            r == ToolKind::Other,
    {
        ToolKind::Other
    }

    /// The title of a call.
    pub fn initial_title(input: Option<&RenameToolInput>) -> (r: String)
        ensures
            r@ == match input {
                Some(input) => "Rename `"@ + input.symbol.symbol_name@ + "` to `"@ + input.new_name@
                    + "`"@,
                None => "Rename symbol"@,
            },
    {
        match input {
            Some(input) => concat5(
                "Rename `",
                input.symbol.symbol_name.as_str(),
                "` to `",
                input.new_name.as_str(),
                "`",
            ),
            None => "Rename symbol".to_string(),
        }
    }

    /// Begins a call.
    pub fn run(input: Result<RenameToolInput, String>) -> (r: Result<Operation, LspEditToolOutput>)
        ensures
            match input {
                Ok(input) => r == Ok::<Operation, LspEditToolOutput>(
                    Operation::RenameSymbol { symbol: input.symbol, new_name: input.new_name },
                ),
                Err(error) => r matches Err(LspEditToolOutput::Text(text)) && text@ == input_lost(
                    error@,
                ),
            },
    {
        match input {
            Ok(input) => Ok(
                Operation::RenameSymbol { symbol: input.symbol, new_name: input.new_name },
            ),
            Err(error) => Err(LspEditToolOutput::Text(lost(error.as_str()))),
        }
    }
}

/// The language server to restart, and why.
#[derive(Clone, Debug)]
pub struct RestartLanguageServerToolInput {
    /// Language server name as reported by list_language_servers, e.g. "rust-analyzer".
    pub name: String,
    /// Short justification visible in the tool result and logs.
    pub reason: String,
}

/// Restarts the language servers of a name across the project.
pub struct RestartLanguageServerTool {}

impl RestartLanguageServerTool {
    pub fn name() -> (r: &'static str)
        ensures
            r@ == "restart_language_server"@,
    {
        "restart_language_server"
    }

    pub fn kind() -> (r: ToolKind)
        ensures
            r == ToolKind::Other,
    {
        ToolKind::Other
    }

    /// The title of a call.
    pub fn initial_title(input: Option<&RestartLanguageServerToolInput>) -> (r: String)
        ensures
            r@ == match input {
                Some(input) => "Restart language server `"@ + input.name@ + "`"@,
                None => "Restart language server"@,
            },
    {
        match input {
            Some(input) => concat3("Restart language server `", input.name.as_str(), "`"),
            None => "Restart language server".to_string(),
        }
    }

    /// Begins a call.
    pub fn run(input: Result<RestartLanguageServerToolInput, String>) -> (r: Result<
        Operation,
        String,
    >)
        ensures
            match input {
                Ok(input) => r == Ok::<Operation, String>(
                    Operation::RestartLanguageServer { name: input.name, reason: input.reason },
                ),
                Err(error) => r matches Err(text) && text@ == input_lost(error@),
            },
    {
        match input {
            Ok(input) => Ok(
                Operation::RestartLanguageServer { name: input.name, reason: input.reason },
            ),
            Err(error) => Err(lost(error.as_str())),
        }
    }
}

/// The query of a search for symbols.
#[derive(Clone, Debug)]
pub struct WorkspaceSymbolToolInput {
    /// Search query, typically a non-empty substring of the symbol name.
    pub query: String,
}

/// Searches for symbols across the workspace using the language server.
pub struct WorkspaceSymbolTool {}

impl WorkspaceSymbolTool {
    pub fn name() -> (r: &'static str)
        ensures
            r@ == "workspace_symbol"@,
    {
        "workspace_symbol"
    }

    pub fn kind() -> (r: ToolKind)
        ensures
            r == ToolKind::Search,
    {
        ToolKind::Search
    }

    /// The title of a call.
    pub fn initial_title(input: Option<&WorkspaceSymbolToolInput>) -> (r: String)
        ensures
            r@ == match input {
                Some(input) => "Search workspace symbols for `"@ + input.query@ + "`"@,
                None => "Search workspace symbols"@,
            },
    {
        match input {
            Some(input) => concat3("Search workspace symbols for `", input.query.as_str(), "`"),
            None => "Search workspace symbols".to_string(),
        }
    }

    /// Begins a call.
    pub fn run(input: Result<WorkspaceSymbolToolInput, String>) -> (r: Result<Operation, String>)
        ensures
            match input {
                Ok(input) => r == Ok::<Operation, String>(
                    Operation::WorkspaceSymbol { query: input.query },
                ),
                Err(error) => r matches Err(text) && text@ == input_lost(error@),
            },
    {
        match input {
            Ok(input) => Ok(Operation::WorkspaceSymbol { query: input.query }),
            Err(error) => Err(lost(error.as_str())),
        }
    }
}

} // verus!
