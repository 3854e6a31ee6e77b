//! Calls of tools: from the arguments of a call to an operation, and from its outcome to the
//! answer that the agent reads and the record that the editor displays.

use vstd::prelude::*;
use vstd::string::*;

use crate::bridge::catalog::{
    kind_for_tool, kind_of, tool_name, tool_names_differ, tool_parameters, ParameterKind,
    ParameterView, Tool,
};
use crate::bridge::protocol::{members_of, JsonRpcError};
use crate::code_actions::{settled, CodeActionStore, CodeActionsOutput, PendingCodeActions};
use crate::edits::{EditDiff, EditOperationOutput};
use crate::json::{
    array_view, items_view, lookup, member, member_index_is_first, members_view, object1, object2,
    object3, object_view, set_member, set_member_is_read_back, take_member, text, with_member, Json,
    JsonView, Member,
};
use crate::operations::Operation;
use crate::symbol::SymbolLocator;
use crate::text::{concat2, decimal, decimal_text, same_text};

verus! {

/// The parameters of a request to call a tool.
#[derive(Debug)]
pub struct ToolsCallParams {
    pub name: String,
    pub arguments: Json,
}

/// The form that the arguments of a tool have.
#[derive(Clone, Copy, Debug, PartialEq, Eq, Structural)]
pub enum ArgumentShape {
    Symbol,
    Diagnostics,
    Rename,
    ReadBuffer,
    ApplyTextEdit,
    File,
    Index,
    Query,
    Restart,
    /// The arguments do not matter.
    Any,
}

/// The arguments of a call, by their form.
#[derive(Debug)]
pub enum ToolArguments {
    Symbol { file_path: String, line: u32, symbol_name: String },
    Diagnostics { path: Option<String>, min_severity: Option<String> },
    Rename { file_path: String, line: u32, symbol_name: String, new_name: String },
    ReadBuffer { file_path: String, start_line: Option<u32>, end_line: Option<u32> },
    ApplyTextEdit { file_path: String, old_string: String, new_string: String },
    File { file_path: String },
    Index { index: u32 },
    Query { query: String },
    Restart { name: String, reason: String },
    Any,
}

impl ToolArguments {
    /// The form of the arguments.
    pub open spec fn shape(&self) -> ArgumentShape {
        match self {
            ToolArguments::Symbol { .. } => ArgumentShape::Symbol,
            ToolArguments::Diagnostics { .. } => ArgumentShape::Diagnostics,
            ToolArguments::Rename { .. } => ArgumentShape::Rename,
            ToolArguments::ReadBuffer { .. } => ArgumentShape::ReadBuffer,
            ToolArguments::ApplyTextEdit { .. } => ArgumentShape::ApplyTextEdit,
            ToolArguments::File { .. } => ArgumentShape::File,
            ToolArguments::Index { .. } => ArgumentShape::Index,
            ToolArguments::Query { .. } => ArgumentShape::Query,
            ToolArguments::Restart { .. } => ArgumentShape::Restart,
            ToolArguments::Any => ArgumentShape::Any,
        }
    }
}

/// The form of the arguments that a tool takes.
pub open spec fn shape_of(tool: Tool) -> ArgumentShape {
    match tool {
        Tool::FindReferences => ArgumentShape::Symbol,
        Tool::Diagnostics => ArgumentShape::Diagnostics,
        Tool::RenameSymbol => ArgumentShape::Rename,
        Tool::FormatDocument => ArgumentShape::File,
        Tool::GetCodeActions => ArgumentShape::Symbol,
        Tool::ApplyCodeAction => ArgumentShape::Index,
        Tool::Hover => ArgumentShape::Symbol,
        Tool::WorkspaceSymbol => ArgumentShape::Query,
        Tool::ListLanguageServers => ArgumentShape::Any,
        Tool::RestartLanguageServer => ArgumentShape::Restart,
        Tool::ReadBuffer => ArgumentShape::ReadBuffer,
        Tool::ApplyTextEdit => ArgumentShape::ApplyTextEdit,
    }
}

/// The tool of a name.
pub open spec fn tool_of(name: Seq<char>) -> Option<Tool> {
    if exists|tool: Tool| #[trigger] tool_name(tool) == name {
        Some(choose|tool: Tool| #[trigger] tool_name(tool) == name)
    } else {
        None
    }
}

/// Finds the tool of a name.
fn find_tool(name: &str) -> (r: Option<Tool>)
    ensures
        r == tool_of(name@),
{
    proof {
        tool_names_differ();
    }
    Tool::named(name)
}

/// The form in which the arguments of a call have to be read, by the name of the tool. Those of an
/// unknown tool are not read at all.
pub fn argument_shape(name: &str) -> (r: ArgumentShape)
    ensures
        r == match tool_of(name@) {
            Some(tool) => shape_of(tool),
            None => ArgumentShape::Any,
        },
{
    match find_tool(name) {
        Some(Tool::FindReferences) | Some(Tool::GetCodeActions) | Some(
            Tool::Hover,
        ) => ArgumentShape::Symbol,
        Some(Tool::Diagnostics) => ArgumentShape::Diagnostics,
        Some(Tool::RenameSymbol) => ArgumentShape::Rename,
        Some(Tool::FormatDocument) => ArgumentShape::File,
        Some(Tool::ApplyCodeAction) => ArgumentShape::Index,
        Some(Tool::WorkspaceSymbol) => ArgumentShape::Query,
        Some(Tool::RestartLanguageServer) => ArgumentShape::Restart,
        Some(Tool::ReadBuffer) => ArgumentShape::ReadBuffer,
        Some(Tool::ApplyTextEdit) => ArgumentShape::ApplyTextEdit,
        Some(Tool::ListLanguageServers) | None => ArgumentShape::Any,
    }
}

/// An operation that an agent asks for.
#[derive(Debug)]
pub enum LspBridgeOp {
    FindReferences { file_path: String, line: u32, symbol_name: String },
    Diagnostics { path: Option<String>, min_severity: Option<String> },
    RenameSymbol { file_path: String, line: u32, symbol_name: String, new_name: String },
    ReadBuffer { file_path: String, start_line: Option<u32>, end_line: Option<u32> },
    ApplyTextEdit { file_path: String, old_string: String, new_string: String },
    FormatDocument { file_path: String },
    GetCodeActions { file_path: String, line: u32, symbol_name: String },
    ApplyCodeAction { index: u32 },
    Hover { file_path: String, line: u32, symbol_name: String },
    WorkspaceSymbol { query: String },
    ListLanguageServers,
    RestartLanguageServer { name: String, reason: String },
}

/// The operation of a tool for arguments of its form.
pub open spec fn op_of(tool: Tool, arguments: ToolArguments) -> LspBridgeOp {
    match (tool, arguments) {
        (
            Tool::FindReferences,
            ToolArguments::Symbol { file_path, line, symbol_name },
        ) => LspBridgeOp::FindReferences { file_path, line, symbol_name },
        (
            Tool::GetCodeActions,
            ToolArguments::Symbol { file_path, line, symbol_name },
        ) => LspBridgeOp::GetCodeActions { file_path, line, symbol_name },
        (
            Tool::Hover,
            ToolArguments::Symbol { file_path, line, symbol_name },
        ) => LspBridgeOp::Hover { file_path, line, symbol_name },
        (
            Tool::Diagnostics,
            ToolArguments::Diagnostics { path, min_severity },
        ) => LspBridgeOp::Diagnostics { path, min_severity },
        (
            Tool::RenameSymbol,
            ToolArguments::Rename { file_path, line, symbol_name, new_name },
        ) => LspBridgeOp::RenameSymbol { file_path, line, symbol_name, new_name },
        (
            Tool::ReadBuffer,
            ToolArguments::ReadBuffer { file_path, start_line, end_line },
        ) => LspBridgeOp::ReadBuffer { file_path, start_line, end_line },
        (
            Tool::ApplyTextEdit,
            ToolArguments::ApplyTextEdit { file_path, old_string, new_string },
        ) => LspBridgeOp::ApplyTextEdit { file_path, old_string, new_string },
        (
            Tool::FormatDocument,
            ToolArguments::File { file_path },
        ) => LspBridgeOp::FormatDocument { file_path },
        (
            Tool::ApplyCodeAction,
            ToolArguments::Index { index },
        ) => LspBridgeOp::ApplyCodeAction { index },
        (
            Tool::WorkspaceSymbol,
            ToolArguments::Query { query },
        ) => LspBridgeOp::WorkspaceSymbol { query },
        (
            Tool::RestartLanguageServer,
            ToolArguments::Restart { name, reason },
        ) => LspBridgeOp::RestartLanguageServer { name, reason },
        _ => LspBridgeOp::ListLanguageServers,
    }
}

/// Takes the parameters of a call as they could be read.
pub fn accept_params(params: Result<ToolsCallParams, String>) -> (r: Result<
    ToolsCallParams,
    JsonRpcError,
>)
    ensures
        match params {
            Ok(params) => r == Ok::<ToolsCallParams, JsonRpcError>(params),
            Err(error) => {
                &&& r matches Err(e)
                &&& e.code == -32602
                &&& e.message@ == "invalid tools/call params: "@ + error@
            },
        },
{
    match params {
        Ok(params) => Ok(params),
        Err(error) => Err(
            JsonRpcError::invalid_params(concat2("invalid tools/call params: ", error.as_str())),
        ),
    }
}

/// Builds the operation of a call from the name of the tool and the arguments, read in the form
/// that `argument_shape` asks for.
pub fn build_op(name: &str, arguments: Result<ToolArguments, String>) -> (r: Result<
    LspBridgeOp,
    JsonRpcError,
>)
    requires
        match (tool_of(name@), arguments) {
            (Some(tool), Ok(arguments)) => tool == Tool::ListLanguageServers || arguments.shape()
                == shape_of(tool),
            _ => true,
        },
    ensures
        match tool_of(name@) {
            None => {
                &&& r matches Err(e)
                &&& e.code == -32601
                &&& e.message@ == "unknown tool: "@ + name@
            },
            Some(tool) => if tool == Tool::ListLanguageServers {
                r matches Ok(LspBridgeOp::ListLanguageServers)
            } else {
                match arguments {
                    Ok(arguments) => r == Ok::<LspBridgeOp, JsonRpcError>(op_of(tool, arguments)),
                    Err(error) => {
                        &&& r matches Err(e)
                        &&& e.code == -32602
                        &&& e.message@ == "bad arguments: "@ + error@
                    },
                }
            },
        },
{
    let tool = match find_tool(name) {
        Some(tool) => tool,
        None => {
            return Err(JsonRpcError::method_not_found(concat2("unknown tool: ", name)));
        },
    };
    if tool == Tool::ListLanguageServers {
        return Ok(LspBridgeOp::ListLanguageServers);
    }
    let arguments = match arguments {
        Ok(arguments) => arguments,
        Err(error) => {
            return Err(JsonRpcError::invalid_params(concat2("bad arguments: ", error.as_str())));
        },
    };
    Ok(
        match arguments {
            ToolArguments::Symbol { file_path, line, symbol_name } => match tool {
                Tool::FindReferences => LspBridgeOp::FindReferences {
                    file_path,
                    line,
                    symbol_name,
                },
                Tool::GetCodeActions => LspBridgeOp::GetCodeActions {
                    file_path,
                    line,
                    symbol_name,
                },
                _ => LspBridgeOp::Hover { file_path, line, symbol_name },
            },
            ToolArguments::Diagnostics { path, min_severity } => LspBridgeOp::Diagnostics {
                path,
                min_severity,
            },
            ToolArguments::Rename {
                file_path,
                line,
                symbol_name,
                new_name,
            } => LspBridgeOp::RenameSymbol { file_path, line, symbol_name, new_name },
            ToolArguments::ReadBuffer {
                file_path,
                start_line,
                end_line,
            } => LspBridgeOp::ReadBuffer { file_path, start_line, end_line },
            ToolArguments::ApplyTextEdit {
                file_path,
                old_string,
                new_string,
            } => LspBridgeOp::ApplyTextEdit { file_path, old_string, new_string },
            ToolArguments::File { file_path } => LspBridgeOp::FormatDocument { file_path },
            ToolArguments::Index { index } => LspBridgeOp::ApplyCodeAction { index },
            ToolArguments::Query { query } => LspBridgeOp::WorkspaceSymbol { query },
            ToolArguments::Restart { name, reason } => LspBridgeOp::RestartLanguageServer {
                name,
                reason,
            },
            ToolArguments::Any => LspBridgeOp::ListLanguageServers,
        },
    )
}

/// What a tool produced: a text for the agent, where need be with data for the editor.
#[derive(Debug)]
pub enum ToolOutput {
    Text(String),
    Rich { text: String, meta: Json },
}

impl From<String> for ToolOutput {
    fn from(text: String) -> (r: Self) {
        ToolOutput::Text(text)
    }
}

impl vstd::std_specs::convert::FromSpecImpl<String> for ToolOutput {
    open spec fn obeys_from_spec() -> bool {
        true
    }

    open spec fn from_spec(text: String) -> Self {
        ToolOutput::Text(text)
    }
}

/// One file before and after a tool changed it, as the editor displays it.
#[derive(Clone, Debug)]
pub struct BridgeDiff {
    pub path: String,
    pub abs_path: String,
    /// The 0-based row at which the change begins; `None` where the whole file is concerned.
    pub line: Option<u32>,
    pub old_text: String,
    pub new_text: String,
}

/// The diff shows the change.
pub open spec fn is_diff_of(diff: BridgeDiff, change: EditDiff) -> bool {
    &&& diff.path == change.path
    &&& diff.abs_path == change.abs_path
    &&& diff.line == change.line
    &&& diff.old_text == change.old_text
    &&& diff.new_text == change.new_text
}

/// The diffs of changed files.
pub fn bridge_diffs_from_agent_lsp(diffs: Vec<EditDiff>) -> (r: Vec<BridgeDiff>)
    ensures
        r@.len() == diffs@.len(),
        forall|i: int| 0 <= i < r@.len() ==> is_diff_of(#[trigger] r@[i], diffs@[i]),
{
    let ghost all = diffs@;
    let mut out: Vec<BridgeDiff> = Vec::new();
    for diff in it: diffs
        invariant
            it.seq() == all,
            out@.len() == it.index(),
            forall|i: int| 0 <= i < out@.len() ==> is_diff_of(#[trigger] out@[i], all[i]),
    {
        out.push(
            BridgeDiff {
                path: diff.path,
                abs_path: diff.abs_path,
                line: diff.line,
                old_text: diff.old_text,
                new_text: diff.new_text,
            },
        );
    }
    out
}

impl BridgeDiff {
    /// The diff as JSON.
    pub open spec fn json(&self) -> JsonView {
        match self.line {
            Some(line) => JsonView::Object(
                seq![
                    ("path"@, JsonView::Text(self.path@)),
                    ("abs_path"@, JsonView::Text(self.abs_path@)),
                    ("line"@, JsonView::Number(decimal(line as nat))),
                    ("old_text"@, JsonView::Text(self.old_text@)),
                    ("new_text"@, JsonView::Text(self.new_text@)),
                ],
            ),
            None => JsonView::Object(
                seq![
                    ("path"@, JsonView::Text(self.path@)),
                    ("abs_path"@, JsonView::Text(self.abs_path@)),
                    ("old_text"@, JsonView::Text(self.old_text@)),
                    ("new_text"@, JsonView::Text(self.new_text@)),
                ],
            ),
        }
    }

    /// The diff as JSON.
    pub fn to_json(&self) -> (r: Json)
        ensures
            r.view() == self.json(),
    {
        let mut members: Vec<Member> = Vec::new();
        members.push(member("path", text(self.path.as_str())));
        members.push(member("abs_path", text(self.abs_path.as_str())));
        if let Some(line) = self.line {
            members.push(member("line", Json::Number(decimal_text(line as u64))));
        }
        members.push(member("old_text", text(self.old_text.as_str())));
        members.push(member("new_text", text(self.new_text.as_str())));
        proof {
            object_view(members);
            assert(members_view(members@) =~= self.json()->Object_0);
        }
        Json::Object(members)
    }
}

/// The diffs as JSON.
pub open spec fn diffs_json(diffs: Seq<BridgeDiff>) -> JsonView {
    JsonView::Array(diffs.map_values(|d: BridgeDiff| d.json()))
}

/// The data that go with changed files.
pub open spec fn edit_meta(diffs: Seq<BridgeDiff>) -> JsonView {
    JsonView::Object(
        seq![
            (
                "zed_bridge"@,
                JsonView::Object(
                    seq![
                        ("version"@, JsonView::Number("1"@)),
                        ("kind"@, JsonView::Text("edit"@)),
                        ("diffs"@, diffs_json(diffs)),
                    ],
                ),
            ),
        ],
    )
}

/// The output of a tool that changed files: a short text for the agent, with the diffs for the
/// editor.
pub fn build_edit_output(text: String, diffs: Vec<BridgeDiff>) -> (r: ToolOutput)
    ensures
        r matches ToolOutput::Rich { text: t, meta } && t == text && meta.view() == edit_meta(
            diffs@,
        ),
{
    let mut items: Vec<Json> = Vec::new();
    let mut i: usize = 0;
    while i < diffs.len()
        invariant
            i <= diffs.len(),
            items@.len() == i,
            forall|k: int| 0 <= k < i ==> (#[trigger] items@[k]).view() == diffs@[k].json(),
        decreases diffs.len() - i,
    {
        items.push(diffs[i].to_json());
        i = i + 1;
    }
    proof {
        array_view(items);
        assert(items_view(items@) =~= diffs@.map_values(|d: BridgeDiff| d.json()));
    }
    let meta = object1(
        "zed_bridge",
        object3(
            "version",
            Json::Number("1".to_string()),
            "kind",
            crate::json::text("edit"),
            "diffs",
            Json::Array(items),
        ),
    );
    ToolOutput::Rich { text, meta }
}

/// The symbol at the place.
pub open spec fn symbol_at(file_path: String, line: u32, symbol_name: String) -> SymbolLocator {
    SymbolLocator { file_path, line, symbol_name }
}

/// Starts an operation. It takes the project; to apply a code action also takes the list that the
/// agent was last shown, which leaves the store for the time being.
pub fn execute_op(project_available: bool, store: &mut CodeActionStore, op: LspBridgeOp) -> (r:
    Result<Operation, String>)
    ensures
        if !project_available {
            &&& r matches Err(error)
            &&& error@ == "project no longer available"@
            &&& final(store).pending == old(store).pending
        } else {
            match op {
                LspBridgeOp::ApplyCodeAction { index } => {
                    &&& final(store).pending is None
                    &&& match old(store).pending {
                        Some(list) => r == Ok::<Operation, String>(
                            Operation::ApplyCodeAction { index, list },
                        ),
                        None => r matches Err(error) && error@
                            == "No code actions cached. Call `lsp_get_code_actions` first."@,
                    }
                },
                LspBridgeOp::GetCodeActions { file_path, line, symbol_name } => {
                    &&& final(store).pending == old(store).pending
                    &&& r matches Ok(Operation::GetCodeActions { symbol, apply_tool_name })
                    &&& symbol == symbol_at(file_path, line, symbol_name)
                    &&& apply_tool_name@ == tool_name(Tool::ApplyCodeAction)
                },
                _ => {
                    &&& final(store).pending == old(store).pending
                    &&& r == Ok::<Operation, String>(
                        match op {
                            LspBridgeOp::FindReferences {
                                file_path,
                                line,
                                symbol_name,
                            } => Operation::FindReferences(symbol_at(file_path, line, symbol_name)),
                            LspBridgeOp::Diagnostics {
                                path,
                                min_severity,
                            } => Operation::Diagnostics { path, min_severity },
                            LspBridgeOp::RenameSymbol {
                                file_path,
                                line,
                                symbol_name,
                                new_name,
                            } => Operation::RenameSymbol {
                                symbol: symbol_at(file_path, line, symbol_name),
                                new_name,
                            },
                            LspBridgeOp::ReadBuffer {
                                file_path,
                                start_line,
                                end_line,
                            } => Operation::ReadBuffer { file_path, start_line, end_line },
                            LspBridgeOp::ApplyTextEdit {
                                file_path,
                                old_string,
                                new_string,
                            } => Operation::ApplyTextEdit { file_path, old_string, new_string },
                            LspBridgeOp::FormatDocument { file_path } => Operation::FormatDocument {
                                file_path,
                            },
                            LspBridgeOp::Hover {
                                file_path,
                                line,
                                symbol_name,
                            } => Operation::Hover(symbol_at(file_path, line, symbol_name)),
                            LspBridgeOp::WorkspaceSymbol { query } => Operation::WorkspaceSymbol {
                                query,
                            },
                            LspBridgeOp::RestartLanguageServer {
                                name,
                                reason,
                            } => Operation::RestartLanguageServer { name, reason },
                            _ => Operation::ListLanguageServers,
                        },
                    )
                },
            }
        },
{
    if !project_available {
        return Err("project no longer available".to_string());
    }
    Ok(
        match op {
            LspBridgeOp::FindReferences { file_path, line, symbol_name } => Operation::FindReferences(
                SymbolLocator::new(file_path, line, symbol_name),
            ),
            LspBridgeOp::Diagnostics { path, min_severity } => Operation::Diagnostics {
                path,
                min_severity,
            },
            LspBridgeOp::RenameSymbol {
                file_path,
                line,
                symbol_name,
                new_name,
            } => Operation::RenameSymbol {
                symbol: SymbolLocator::new(file_path, line, symbol_name),
                new_name,
            },
            LspBridgeOp::ReadBuffer { file_path, start_line, end_line } => Operation::ReadBuffer {
                file_path,
                start_line,
                end_line,
            },
            LspBridgeOp::ApplyTextEdit {
                file_path,
                old_string,
                new_string,
            } => Operation::ApplyTextEdit { file_path, old_string, new_string },
            LspBridgeOp::FormatDocument { file_path } => Operation::FormatDocument { file_path },
            LspBridgeOp::GetCodeActions {
                file_path,
                line,
                symbol_name,
            } => Operation::GetCodeActions {
                symbol: SymbolLocator::new(file_path, line, symbol_name),
                apply_tool_name: "lsp_apply_code_action",
            },
            LspBridgeOp::ApplyCodeAction { index } => {
                match store.lend("No code actions cached. Call `lsp_get_code_actions` first.") {
                    Ok(list) => Operation::ApplyCodeAction { index, list },
                    Err(error) => {
                        return Err(error);
                    },
                }
            },
            LspBridgeOp::Hover { file_path, line, symbol_name } => Operation::Hover(
                SymbolLocator::new(file_path, line, symbol_name),
            ),
            LspBridgeOp::WorkspaceSymbol { query } => Operation::WorkspaceSymbol { query },
            LspBridgeOp::ListLanguageServers => Operation::ListLanguageServers,
            LspBridgeOp::RestartLanguageServer { name, reason } => Operation::RestartLanguageServer {
                name,
                reason,
            },
        },
    )
}

/// How an operation ended.
pub enum Outcome {
    /// One that answers with a text.
    Answered(Result<String, String>),
    /// One on a buffer, which prepares its output itself.
    Produced(Result<ToolOutput, String>),
    /// One that changes files.
    Changed(Result<EditOperationOutput, String>),
    /// A listing of code actions.
    Listed(Result<CodeActionsOutput, String>),
    /// The application of an action of a list.
    Applied { list: PendingCodeActions, result: Result<EditOperationOutput, String> },
}

/// The output shows what an operation that may change files has to show.
pub open spec fn shows(output: ToolOutput, change: EditOperationOutput) -> bool {
    match change {
        EditOperationOutput::Text(text) => output == ToolOutput::Text(text),
        EditOperationOutput::Edited(edited) => {
            &&& output matches ToolOutput::Rich { text, meta }
            &&& text == edited.text
            &&& exists|diffs: Seq<BridgeDiff>|
                {
                    &&& diffs.len() == edited.diffs@.len()
                    &&& forall|i: int|
                        0 <= i < diffs.len() ==> is_diff_of(#[trigger] diffs[i], edited.diffs@[i])
                    &&& meta.view() == #[trigger] edit_meta(diffs)
                }
        },
    }
}

/// The output of an operation that may change files.
fn edit_result(result: Result<EditOperationOutput, String>) -> (r: Result<ToolOutput, String>)
    ensures
        match result {
            Ok(change) => r matches Ok(output) && shows(output, change),
            Err(error) => r == Err::<ToolOutput, String>(error),
        },
{
    match result {
        Ok(EditOperationOutput::Text(text)) => Ok(ToolOutput::Text(text)),
        Ok(EditOperationOutput::Edited(output)) => {
            let diffs = bridge_diffs_from_agent_lsp(output.diffs);
            let ghost shown = diffs@;
            let r = build_edit_output(output.text, diffs);
            assert(r->meta.view() == edit_meta(shown));
            Ok(r)
        },
        Err(error) => Err(error),
    }
}

/// Ends an operation: what the tool produced, and the list of code actions that is kept from now
/// on.
pub fn complete_op(store: &mut CodeActionStore, outcome: Outcome) -> (r: Result<ToolOutput, String>)
    ensures
        match outcome {
            Outcome::Answered(Ok(text)) => r == Ok::<ToolOutput, String>(ToolOutput::Text(text)),
            Outcome::Answered(Err(error)) => r == Err::<ToolOutput, String>(error),
            Outcome::Produced(result) => r == result,
            Outcome::Changed(Ok(change)) => r matches Ok(output) && shows(output, change),
            Outcome::Changed(Err(error)) => r == Err::<ToolOutput, String>(error),
            Outcome::Listed(Ok(output)) => r == Ok::<ToolOutput, String>(
                ToolOutput::Text(output.text),
            ),
            Outcome::Listed(Err(error)) => r == Err::<ToolOutput, String>(error),
            Outcome::Applied { result: Ok(change), .. } => r matches Ok(output) && shows(
                output,
                change,
            ),
            Outcome::Applied { result: Err(error), .. } => r == Err::<ToolOutput, String>(error),
        },
        final(store).pending == match outcome {
            Outcome::Listed(Ok(output)) => output.pending,
            Outcome::Applied { list, result } => settled(old(store).pending, list, result is Ok),
            _ => old(store).pending,
        },
{
    match outcome {
        Outcome::Answered(Ok(text)) => Ok(ToolOutput::from(text)),
        Outcome::Answered(Err(error)) => Err(error),
        Outcome::Produced(result) => result,
        Outcome::Changed(result) => edit_result(result),
        Outcome::Listed(Ok(output)) => Ok(ToolOutput::from(store.keep(output))),
        Outcome::Listed(Err(error)) => Err(error),
        Outcome::Applied { list, result } => {
            store.settle(list, result.is_ok());
            edit_result(result)
        },
    }
}

/// What became of a call that was sent to the editor.
pub enum Dispatched {
    /// The editor no longer takes calls.
    QueueClosed,
    /// The editor gave up the call without an answer.
    ReplyDropped,
    /// The editor answered.
    Replied(Result<ToolOutput, String>),
}

/// The answer that a call gets which waits while the editor stops taking calls.
pub fn reject() -> (r: Result<ToolOutput, String>)
    ensures
        r matches Err(error) && error@ == "foreground dispatch queue closed"@,
{
    Err("foreground dispatch queue closed".to_string())
}

/// A record of a call, for the editor to display.
#[derive(Debug)]
pub struct BridgeResultEntry {
    pub tool: String,
    pub payload: Json,
}

/// How a call is answered, and the record of it that is published.
pub struct CallOutcome {
    pub result: Result<Json, JsonRpcError>,
    pub published: Option<BridgeResultEntry>,
}

/// A text as the content of an answer.
pub open spec fn content(text: Seq<char>, is_error: bool) -> JsonView {
    JsonView::Object(
        seq![
            (
                "content"@,
                JsonView::Array(
                    seq![
                        JsonView::Object(
                            seq![("type"@, JsonView::Text("text"@)), ("text"@, JsonView::Text(text))],
                        ),
                    ],
                ),
            ),
            ("isError"@, JsonView::Bool(is_error)),
        ],
    )
}

/// A text as the content of an answer.
fn content_of(s: &str, is_error: bool) -> (r: Json)
    ensures
        r.view() == content(s@, is_error),
{
    let mut items: Vec<Json> = Vec::new();
    items.push(object2("type", text("text"), "text", text(s)));
    proof {
        array_view(items);
        assert(items_view(items@) =~= seq![
            JsonView::Object(
                seq![("type"@, JsonView::Text("text"@)), ("text"@, JsonView::Text(s@))],
            ),
        ]);
    }
    object2("content", Json::Array(items), "isError", Json::Bool(is_error))
}

/// The content of the answer where a tool failed.
pub fn error_content(err: &str) -> (r: Json)
    ensures
        r.view() == content(err@, true),
{
    content_of(err, true)
}

/// The members that every record has.
pub open spec fn record_base(name: Seq<char>, text: Seq<char>) -> Seq<(Seq<char>, JsonView)> {
    let base = seq![
        ("version"@, JsonView::Number("1"@)),
        ("kind"@, JsonView::Text(kind_of(name))),
        ("tool"@, JsonView::Text(name)),
    ];
    if name == "read_buffer"@ {
        base.push(("text"@, JsonView::Text(text)))
    } else {
        base
    }
}

/// The members with further ones set, one after another.
pub open spec fn merged(
    base: Seq<(Seq<char>, JsonView)>,
    extra: Seq<(Seq<char>, JsonView)>,
) -> Seq<(Seq<char>, JsonView)>
    decreases extra.len(),
{
    if extra.len() == 0 {
        base
    } else {
        with_member(merged(base, extra.drop_last()), extra.last().0, extra.last().1)
    }
}

/// The members that the data of an output add to a record.
pub open spec fn extra_members(meta: JsonView) -> Seq<(Seq<char>, JsonView)> {
    match lookup(members_of(meta), "zed_bridge"@) {
        Some(JsonView::Object(members)) => members,
        _ => Seq::empty(),
    }
}

/// The text of an output.
pub open spec fn output_text(output: ToolOutput) -> Seq<char> {
    match output {
        ToolOutput::Text(text) => text@,
        ToolOutput::Rich { text, .. } => text@,
    }
}

/// The members of the record of a call.
pub open spec fn record(name: Seq<char>, output: ToolOutput) -> Seq<(Seq<char>, JsonView)> {
    let base = record_base(name, output_text(output));
    match output {
        ToolOutput::Text(_) => base,
        ToolOutput::Rich { meta, .. } => merged(base, extra_members(meta.view())),
    }
}

/// The members that the data of an output add to a record.
fn take_extra(meta: Json) -> (r: Vec<Member>)
    ensures
        members_view(r@) == extra_members(meta.view()),
{
    let none: Vec<Member> = Vec::new();
    assert(members_view(none@) =~= Seq::empty());
    match meta {
        Json::Object(members) => {
            let mut members = members;
            proof {
                object_view(members);
            }
            match take_member(&mut members, "zed_bridge") {
                Some(Json::Object(extra)) => {
                    proof {
                        object_view(extra);
                    }
                    extra
                },
                _ => none,
            }
        },
        _ => none,
    }
}

/// Sets further members, one after another.
fn merge(members: &mut Vec<Member>, extra: Vec<Member>)
    ensures
        members_view(final(members)@) == merged(members_view(old(members)@), members_view(extra@)),
{
    let ghost all = extra@;
    let ghost base = members_view(members@);
    for m in it: extra
        invariant
            it.seq() == all,
            members_view(members@) == merged(base, members_view(all.take(it.index() as int))),
    {
        proof {
            let taken = members_view(all.take(it.index() + 1));
            assert(taken.drop_last() =~= members_view(all.take(it.index() as int)));
            assert(taken.last() == (m.name@, m.value.view()));
        }
        set_member(members, m.name.as_str(), m.value);
    }
    assert(all.take(all.len() as int) =~= all);
}

/// Answers a call of the tool of the name, given what became of it, and makes the record that is
/// published: only where the tool succeeded.
pub fn handle_tools_call(name: String, dispatched: Dispatched) -> (r: CallOutcome)
    ensures
        match dispatched {
            Dispatched::QueueClosed => {
                &&& r.published is None
                &&& r.result matches Err(e)
                &&& e.code == -32603
                &&& e.message@ == "dispatch queue closed"@
            },
            Dispatched::ReplyDropped => {
                &&& r.published is None
                &&& r.result matches Err(e)
                &&& e.code == -32603
                &&& e.message@ == "foreground dispatch dropped reply"@
            },
            Dispatched::Replied(Err(error)) => {
                &&& r.published is None
                &&& r.result matches Ok(value)
                &&& value.view() == content(error@, true)
            },
            Dispatched::Replied(Ok(output)) => {
                &&& r.published matches Some(entry)
                &&& entry.tool == name
                &&& entry.payload.view() == JsonView::Object(record(name@, output))
                &&& r.result matches Ok(value)
                &&& value.view() == content(output_text(output), false)
            },
        },
{
    let output = match dispatched {
        Dispatched::QueueClosed => {
            let error = JsonRpcError::internal("dispatch queue closed".to_string());
            return CallOutcome { result: Err(error), published: None };
        },
        Dispatched::ReplyDropped => {
            let error = JsonRpcError::internal("foreground dispatch dropped reply".to_string());
            return CallOutcome { result: Err(error), published: None };
        },
        Dispatched::Replied(Err(error)) => {
            return CallOutcome { result: Ok(error_content(error.as_str())), published: None };
        },
        Dispatched::Replied(Ok(output)) => output,
    };
    let (shown, extra) = match output {
        ToolOutput::Text(text) => (text, None),
        ToolOutput::Rich { text, meta } => (text, Some(take_extra(meta))),
    };
    let mut payload: Vec<Member> = Vec::new();
    payload.push(member("version", Json::Number("1".to_string())));
    payload.push(member("kind", text(kind_for_tool(name.as_str()))));
    payload.push(member("tool", text(name.as_str())));
    if same_text(name.as_str(), "read_buffer") {
        payload.push(member("text", text(shown.as_str())));
    }
    assert(members_view(payload@) =~= record_base(name@, shown@));
    if let Some(extra) = extra {
        merge(&mut payload, extra);
    }
    proof {
        object_view(payload);
    }
    CallOutcome {
        result: Ok(content_of(shown.as_str(), false)),
        published: Some(BridgeResultEntry { tool: name, payload: Json::Object(payload) }),
    }
}

/// The value of the last member of the name.
pub open spec fn last_value(members: Seq<(Seq<char>, JsonView)>, name: Seq<char>) -> Option<JsonView>
    decreases members.len(),
{
    if members.len() == 0 {
        None
    } else if members.last().0 == name {
        Some(members.last().1)
    } else {
        last_value(members.drop_last(), name)
    }
}

/// Setting further members makes every one of them readable, the last of each name, and leaves the
/// members of other names as they were.
pub proof fn merged_members_are_read_back(
    base: Seq<(Seq<char>, JsonView)>,
    extra: Seq<(Seq<char>, JsonView)>,
    name: Seq<char>,
)
    ensures
        lookup(merged(base, extra), name) == match last_value(extra, name) {
            Some(value) => Some(value),
            None => lookup(base, name),
        },
    decreases extra.len(),
{
    if extra.len() > 0 {
        let rest = extra.drop_last();
        merged_members_are_read_back(base, rest, name);
        set_member_is_read_back(merged(base, rest), extra.last().0, extra.last().1, name);
    }
}

/// The record of a tool that changed files is an edit and holds the diffs, whatever the name of the
/// tool; the text that the agent reads is not part of it.
pub proof fn diffs_reach_the_record(name: Seq<char>, output: ToolOutput, diffs: Seq<BridgeDiff>)
    requires
        output matches ToolOutput::Rich { meta, .. } && meta.view() == edit_meta(diffs),
    ensures
        lookup(record(name, output), "kind"@) == Some(JsonView::Text("edit"@)),
        lookup(record(name, output), "diffs"@) == Some(diffs_json(diffs)),
        lookup(record(name, output), "tool"@) == Some(JsonView::Text(name)),
{
    let base = record_base(name, output_text(output));
    let extra = seq![
        ("version"@, JsonView::Number("1"@)),
        ("kind"@, JsonView::Text("edit"@)),
        ("diffs"@, diffs_json(diffs)),
    ];
    let meta = members_of(edit_meta(diffs));
    member_index_is_first(meta, "zed_bridge"@);
    assert(meta[0].0 == "zed_bridge"@);
    assert(extra_members(edit_meta(diffs)) == extra);
    reveal_strlit("version");
    reveal_strlit("kind");
    reveal_strlit("diffs");
    reveal_strlit("tool");
    assert("version"@.len() == 7 && "kind"@.len() == 4 && "diffs"@.len() == 5 && "tool"@.len() == 4);
    assert("kind"@[0] == 'k' && "tool"@[0] == 't');
    reveal_with_fuel(last_value, 4);
    assert(extra.drop_last().last() == extra[1] && extra.drop_last().drop_last().last() == extra[0]);
    merged_members_are_read_back(base, extra, "kind"@);
    merged_members_are_read_back(base, extra, "diffs"@);
    merged_members_are_read_back(base, extra, "tool"@);
    member_index_is_first(base, "tool"@);
    assert(base[2].0 == "tool"@);
}

/// Every tool that is announced can be called: with arguments of its form, an operation is built.
pub proof fn announced_tools_are_known(tool: Tool)
    ensures
        tool_of(tool_name(tool)) == Some(tool),
{
    tool_names_differ();
}

/// The arguments of a form: the name and the type of each, and whether a call has to give it.
pub open spec fn fields_of(shape: ArgumentShape) -> Seq<(Seq<char>, ParameterKind, bool)> {
    match shape {
        ArgumentShape::Symbol => seq![
            ("file_path"@, ParameterKind::Text, true),
            ("line"@, ParameterKind::Integer, true),
            ("symbol_name"@, ParameterKind::Text, true),
        ],
        ArgumentShape::Diagnostics => seq![
            ("path"@, ParameterKind::Text, false),
            ("min_severity"@, ParameterKind::Text, false),
        ],
        ArgumentShape::Rename => seq![
            ("file_path"@, ParameterKind::Text, true),
            ("line"@, ParameterKind::Integer, true),
            ("symbol_name"@, ParameterKind::Text, true),
            ("new_name"@, ParameterKind::Text, true),
        ],
        ArgumentShape::ReadBuffer => seq![
            ("file_path"@, ParameterKind::Text, true),
            ("start_line"@, ParameterKind::Integer, false),
            ("end_line"@, ParameterKind::Integer, false),
        ],
        ArgumentShape::ApplyTextEdit => seq![
            ("file_path"@, ParameterKind::Text, true),
            ("old_string"@, ParameterKind::Text, true),
            ("new_string"@, ParameterKind::Text, true),
        ],
        ArgumentShape::File => seq![("file_path"@, ParameterKind::Text, true)],
        ArgumentShape::Index => seq![("index"@, ParameterKind::Integer, true)],
        ArgumentShape::Query => seq![("query"@, ParameterKind::Text, true)],
        ArgumentShape::Restart => seq![
            ("name"@, ParameterKind::Text, true),
            ("reason"@, ParameterKind::Text, true),
        ],
        ArgumentShape::Any => Seq::empty(),
    }
}

/// What is announced of a tool is what its calls take: the parameters are the arguments of its form.
pub proof fn announced_parameters_are_the_arguments(tool: Tool)
    ensures
        tool_parameters(tool).map_values(|p: ParameterView| (p.name, p.kind, p.required)) == fields_of(
            shape_of(tool),
        ),
{
    assert(tool_parameters(tool).map_values(|p: ParameterView| (p.name, p.kind, p.required))
        =~= fields_of(shape_of(tool)));
}

} // verus!
