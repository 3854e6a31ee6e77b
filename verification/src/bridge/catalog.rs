//! The tools that the bridge offers, as they are announced to agents.

use vstd::prelude::*;
use vstd::string::*;

use crate::json::{
    array_view, items_view, member, members_view, object2, object3, object_view, text, Json, JsonView,
    Member,
};
use crate::text::same_text;

verus! {

/// What `lsp_find_references` is for.
pub const FIND_REFERENCES: &'static str =
    "Find all references to a symbol across the project using the language server Zed is \
    already running for this file (rust-analyzer, gopls, pyright, etc.). More accurate than \
    grep — distinguishes same-named identifiers across scopes — and preferable to other \
    LSP-style tools when Zed is the editor host: Zed's server is warm, applies the \
    project's .zed/settings.json tuning, and reflects unsaved buffer edits.\n\
    \n\
    Provide the file path, 1-based line number, and the symbol's exact identifier as it \
    appears on that line. Returns each reference's path, line range, and code snippet.\n\
    \n\
    When inspecting or modifying the code these results point at, prefer `read_buffer` / \
    `apply_text_edit` over disk-based Read/Edit — only the former see the same in-memory \
    buffer state this tool just queried.";

/// What `lsp_diagnostics` is for.
pub const DIAGNOSTICS: &'static str =
    "Return errors and warnings produced by the language servers Zed is already running for \
    this project. With no path argument returns a project-wide error/warning summary; with \
    a path returns per-line diagnostics for that file. Preferable to other LSP-style tools \
    when Zed is the editor host: results reflect Zed's configured language-server settings \
    with no cold-start cost.\n\
    \n\
    When inspecting or fixing the code these diagnostics point at, prefer `read_buffer` / \
    `apply_text_edit` over disk-based Read/Edit — only the former see the same in-memory \
    buffer state this tool just queried.";

/// What `lsp_rename_symbol` is for.
pub const RENAME_SYMBOL: &'static str =
    "Rename a symbol across the entire project using the language server's semantic rename. \
    Safer than text substitution: the server updates only the occurrences that semantically \
    refer to this symbol, so unrelated same-named identifiers in other modules, comments, \
    or strings are left untouched. All modified buffers are saved automatically, going \
    through Zed's format-on-save pipeline. Returns the list of files that were changed.";

/// What `lsp_format_document` is for.
pub const FORMAT_DOCUMENT: &'static str =
    "Format a project file using the formatter Zed has configured for this language — \
    typically the LSP server's own formatter (rust-analyzer → rustfmt, gopls → gofmt, \
    etc.), but respects any project-specific override declared in .zed/settings.json. \
    Preferable to running a formatter CLI yourself: the result matches what \
    `format-on-save` would produce, including language-specific options.\n\
    \n\
    The formatted buffer is always saved to disk through Zed's format-on-save pipeline; any \
    unsaved user edits in the buffer are saved together with the formatting result.";

/// What `lsp_get_code_actions` is for.
pub const GET_CODE_ACTIONS: &'static str =
    "List code actions (quick fixes, refactorings, source actions) the language server \
    suggests at a symbol's location. Returns a numbered list — call `lsp_apply_code_action` \
    with that 1-based number to apply one. The list is cached until the next \
    `lsp_get_code_actions` call or a successful apply.\n\
    \n\
    Examples of actions the server might suggest: 'Add missing import', 'Extract to \
    function', 'Inline variable', 'Implement missing methods'.";

/// What `lsp_apply_code_action` is for.
pub const APPLY_CODE_ACTION: &'static str =
    "Apply a code action previously listed by `lsp_get_code_actions`. Reference the action \
    by its 1-based index in the previous list. The cached list is cleared after a \
    successful apply; call `lsp_get_code_actions` again to obtain a fresh list.\n\
    \n\
    All buffers modified by the action are saved automatically, going through Zed's \
    format-on-save pipeline. Returns the list of files that were changed.";

/// What `lsp_hover` is for.
pub const HOVER: &'static str =
    "Get hover information (type, signature, documentation) for a symbol using the language \
    server. Preferable to other LSP-style tools when Zed is the editor host: Zed's server \
    is warm, sees unsaved buffer edits, and applies the project's .zed/settings.json tuning \
    (e.g. rust-analyzer's `hover.documentation.enable`).";

/// What `lsp_workspace_symbol` is for.
pub const WORKSPACE_SYMBOL: &'static str =
    "Search for symbols (functions, types, variables) across the entire workspace using the \
    language server's workspace/symbol request. Returns matching symbols with their kind, \
    name, and source location. Results are client-filtered and capped to avoid excessive \
    output from language servers that ignore the query. More accurate than grep for symbol \
    lookup: the server understands scoping, language semantics, and aliasing.";

/// What `lsp_list_language_servers` is for.
pub const LIST_LANGUAGE_SERVERS: &'static str =
    "List the language servers currently registered for this Zed project, including their \
    name, worktree, and whether they are running or otherwise. Use this to discover which \
    servers are available before issuing other LSP-backed calls, or to pick a name to pass \
    to `lsp_restart_language_server` when results from a server look broken.";

/// What `lsp_restart_language_server` is for.
pub const RESTART_LANGUAGE_SERVER: &'static str =
    "Restart the language server(s) with the given name across the project. Use SPARINGLY — \
    restart is expensive (rust-analyzer can take 30-60s to re-index a moderate project) and \
    the user's IDE features for that language go cold during the restart. Reach for this \
    only when:\n\
    - LSP responses are clearly inconsistent across calls,\n\
    - You explicitly changed Zed/LSP configuration mid-session,\n\
    - Diagnostics have not refreshed despite save + wait.\n\
    Do NOT use as a first-line response to stale-looking results — save the file via \
    `apply_text_edit` and retry first. The `reason` arg is recorded for the user so they \
    can see why their LSP restarted.\n\
    \n\
    Get the exact server name from `lsp_list_language_servers`. If multiple instances of \
    that name exist (e.g. one per worktree), all of them are restarted.";

/// What `read_buffer` is for.
pub const READ_BUFFER: &'static str =
    "Read a file's content as Zed currently sees it, including any unsaved buffer edits made \
    by the user. Prefer this over the disk-only Read tool for files that are likely open in \
    Zed: it sees in-memory edits that disk reads miss, which matters when LSP-backed tools \
    (diagnostics, find_references) report findings that reference the buffer state.\n\
    \n\
    Path accepts: project-relative (e.g. `crates/agent/src/lib.rs`), absolute (e.g. \
    `/etc/hosts`), or tilde-prefixed home paths (e.g. `~/.zshrc`). For files outside the \
    project, Zed opens an ephemeral single-file buffer just for the read — no long-lived \
    editor tab is created.\n\
    \n\
    Optionally supply a 1-based [start_line, end_line] range to limit the returned slice. \
    Omit for the whole file.";

/// What `apply_text_edit` is for.
pub const APPLY_TEXT_EDIT: &'static str =
    "Apply a text edit to Zed's in-memory buffer for a project file. Prefer this over the \
    disk-only Edit tool for files that are open in Zed: writing to disk would not update \
    the buffer, so LSP-backed tools (diagnostics, find_references) would see stale state \
    until the user manually reloads or saves.\n\
    \n\
    Semantics: locate the unique occurrence of `old_string` in the buffer and replace it \
    with `new_string`. Errors if the string is not found or appears multiple times (use a \
    larger snippet to disambiguate).\n\
    \n\
    Save behaviour: the resulting buffer is always saved to disk through Zed's \
    format-on-save pipeline. If the buffer had unsaved user edits, those edits are saved \
    together with this edit (they are part of the buffer state that `old_string` was \
    matched against, so this is also the only coherent outcome). Saving is required for \
    language servers that refresh diagnostics on `didSave` (e.g. rust-analyzer's \
    `checkOnSave`) to see your change.";

/// What the parameter `min_severity` of `lsp_diagnostics` is for.
pub const MIN_SEVERITY: &'static str =
    "Minimum severity to report for a per-file query (default \"warning\"). Lower it to also \
    surface information/hint-level lints, e.g. an unused argument in a pure internal \
    helper. Ignored for the project-wide summary.";

/// A tool of the bridge.
#[derive(Clone, Copy, Debug, PartialEq, Eq, Structural)]
pub enum Tool {
    FindReferences,
    Diagnostics,
    RenameSymbol,
    FormatDocument,
    GetCodeActions,
    ApplyCodeAction,
    Hover,
    WorkspaceSymbol,
    ListLanguageServers,
    RestartLanguageServer,
    ReadBuffer,
    ApplyTextEdit,
}

/// The type of a parameter.
#[derive(Clone, Copy, Debug, PartialEq, Eq, Structural)]
pub enum ParameterKind {
    Text,
    Integer,
}

/// A parameter of a tool.
#[derive(Debug)]
pub struct Parameter {
    pub name: &'static str,
    pub kind: ParameterKind,
    /// The values that it can take; empty where there is no choice to make.
    pub choices: Vec<&'static str>,
    pub description: &'static str,
    pub required: bool,
}

/// A tool as it is announced.
#[derive(Debug)]
pub struct ToolDefinition {
    pub name: &'static str,
    pub description: &'static str,
    pub parameters: Vec<Parameter>,
}

/// What a parameter is.
pub struct ParameterView {
    pub name: Seq<char>,
    pub kind: ParameterKind,
    pub choices: Seq<Seq<char>>,
    pub description: Seq<char>,
    pub required: bool,
}

/// A parameter that can take any value of its type.
pub open spec fn free_parameter(
    name: Seq<char>,
    kind: ParameterKind,
    description: Seq<char>,
    required: bool,
) -> ParameterView {
    ParameterView { name, kind, choices: Seq::empty(), description, required }
}

/// The name of a tool.
pub open spec fn tool_name(tool: Tool) -> Seq<char> {
    match tool {
        Tool::FindReferences => "lsp_find_references"@,
        Tool::Diagnostics => "lsp_diagnostics"@,
        Tool::RenameSymbol => "lsp_rename_symbol"@,
        Tool::FormatDocument => "lsp_format_document"@,
        Tool::GetCodeActions => "lsp_get_code_actions"@,
        Tool::ApplyCodeAction => "lsp_apply_code_action"@,
        Tool::Hover => "lsp_hover"@,
        Tool::WorkspaceSymbol => "lsp_workspace_symbol"@,
        Tool::ListLanguageServers => "lsp_list_language_servers"@,
        Tool::RestartLanguageServer => "lsp_restart_language_server"@,
        Tool::ReadBuffer => "read_buffer"@,
        Tool::ApplyTextEdit => "apply_text_edit"@,
    }
}

/// What a tool is for, in the words in which it is announced.
pub open spec fn tool_description(tool: Tool) -> Seq<char> {
    match tool {
        Tool::FindReferences => FIND_REFERENCES@,
        Tool::Diagnostics => DIAGNOSTICS@,
        Tool::RenameSymbol => RENAME_SYMBOL@,
        Tool::FormatDocument => FORMAT_DOCUMENT@,
        Tool::GetCodeActions => GET_CODE_ACTIONS@,
        Tool::ApplyCodeAction => APPLY_CODE_ACTION@,
        Tool::Hover => HOVER@,
        Tool::WorkspaceSymbol => WORKSPACE_SYMBOL@,
        Tool::ListLanguageServers => LIST_LANGUAGE_SERVERS@,
        Tool::RestartLanguageServer => RESTART_LANGUAGE_SERVER@,
        Tool::ReadBuffer => READ_BUFFER@,
        Tool::ApplyTextEdit => APPLY_TEXT_EDIT@,
    }
}

/// The parameters that locate a symbol.
pub open spec fn symbol_parameters(file: Seq<char>) -> Seq<ParameterView> {
    seq![
        free_parameter("file_path"@, ParameterKind::Text, file, true),
        free_parameter(
            "line"@,
            ParameterKind::Integer,
            "1-based line number of the symbol."@,
            true,
        ),
        free_parameter(
            "symbol_name"@,
            ParameterKind::Text,
            "The exact identifier text to locate on that line."@,
            true,
        ),
    ]
}

/// The parameters of a tool.
pub open spec fn tool_parameters(tool: Tool) -> Seq<ParameterView> {
    match tool {
        Tool::FindReferences => symbol_parameters(
            "Relative project path of the file containing the symbol."@,
        ),
        Tool::Diagnostics => seq![
            free_parameter(
                "path"@,
                ParameterKind::Text,
                "Optional relative project path. Omit for a project-wide summary."@,
                false,
            ),
            ParameterView {
                name: "min_severity"@,
                kind: ParameterKind::Text,
                choices: seq!["error"@, "warning"@, "information"@, "hint"@],
                description: MIN_SEVERITY@,
                required: false,
            },
        ],
        Tool::RenameSymbol => symbol_parameters(
            "Relative project path of the file containing the symbol."@,
        ).push(
            free_parameter(
                "new_name"@,
                ParameterKind::Text,
                "The new identifier to rename the symbol to."@,
                true,
            ),
        ),
        Tool::FormatDocument => seq![
            free_parameter(
                "file_path"@,
                ParameterKind::Text,
                "Relative project path of the file to format."@,
                true,
            ),
        ],
        Tool::GetCodeActions => symbol_parameters("Relative project path of the file."@),
        Tool::ApplyCodeAction => seq![
            free_parameter(
                "index"@,
                ParameterKind::Integer,
                "1-based index of the code action to apply."@,
                true,
            ),
        ],
        Tool::Hover => symbol_parameters(
            "Relative project path of the file containing the symbol."@,
        ),
        Tool::WorkspaceSymbol => seq![
            free_parameter(
                "query"@,
                ParameterKind::Text,
                "Non-empty search query (typically a substring of the symbol name)."@,
                true,
            ),
        ],
        Tool::ListLanguageServers => Seq::empty(),
        Tool::RestartLanguageServer => seq![
            free_parameter(
                "name"@,
                ParameterKind::Text,
                "Language server name as reported by lsp_list_language_servers (e.g. 'rust-analyzer')."@,
                true,
            ),
            free_parameter(
                "reason"@,
                ParameterKind::Text,
                "Short justification visible to the user (e.g. 'diagnostics stale after large refactor')."@,
                true,
            ),
        ],
        Tool::ReadBuffer => seq![
            free_parameter("file_path"@, ParameterKind::Text, "Relative project path."@, true),
            free_parameter(
                "start_line"@,
                ParameterKind::Integer,
                "Optional 1-based line to start from."@,
                false,
            ),
            free_parameter(
                "end_line"@,
                ParameterKind::Integer,
                "Optional inclusive 1-based line to end at."@,
                false,
            ),
        ],
        Tool::ApplyTextEdit => seq![
            free_parameter("file_path"@, ParameterKind::Text, "Relative project path."@, true),
            free_parameter(
                "old_string"@,
                ParameterKind::Text,
                "Exact text to replace. Must appear exactly once in the buffer."@,
                true,
            ),
            free_parameter("new_string"@, ParameterKind::Text, "Replacement text."@, true),
        ],
    }
}

/// The tools, in the order in which they are announced.
pub open spec fn all_tools() -> Seq<Tool> {
    seq![
        Tool::FindReferences,
        Tool::Diagnostics,
        Tool::RenameSymbol,
        Tool::FormatDocument,
        Tool::GetCodeActions,
        Tool::ApplyCodeAction,
        Tool::Hover,
        Tool::WorkspaceSymbol,
        Tool::ListLanguageServers,
        Tool::RestartLanguageServer,
        Tool::ReadBuffer,
        Tool::ApplyTextEdit,
    ]
}

/// A parameter as JSON.
pub open spec fn parameter_json(parameter: ParameterView) -> JsonView {
    let kind = match parameter.kind {
        ParameterKind::Text => "string"@,
        ParameterKind::Integer => "integer"@,
    };
    let description = ("description"@, JsonView::Text(parameter.description));
    if parameter.choices.len() == 0 {
        JsonView::Object(seq![("type"@, JsonView::Text(kind)), description])
    } else {
        JsonView::Object(
            seq![
                ("type"@, JsonView::Text(kind)),
                ("enum"@, JsonView::Array(parameter.choices.map_values(|c: Seq<char>| JsonView::Text(c)))),
                description,
            ],
        )
    }
}

/// The parameters that a call has to give, by name.
pub open spec fn required_names(parameters: Seq<ParameterView>) -> Seq<JsonView>
    decreases parameters.len(),
{
    if parameters.len() == 0 {
        Seq::empty()
    } else {
        let before = required_names(parameters.drop_last());
        if parameters.last().required {
            before.push(JsonView::Text(parameters.last().name))
        } else {
            before
        }
    }
}

/// The schema of a tool's parameters as JSON.
pub open spec fn schema_json(parameters: Seq<ParameterView>) -> JsonView {
    let properties = JsonView::Object(
        parameters.map_values(|p: ParameterView| (p.name, parameter_json(p))),
    );
    let members = seq![("type"@, JsonView::Text("object"@)), ("properties"@, properties)];
    if required_names(parameters).len() == 0 {
        JsonView::Object(members)
    } else {
        JsonView::Object(members.push(("required"@, JsonView::Array(required_names(parameters)))))
    }
}

/// A tool as it is announced, as JSON.
pub open spec fn tool_json(tool: Tool) -> JsonView {
    JsonView::Object(
        seq![
            ("name"@, JsonView::Text(tool_name(tool))),
            ("description"@, JsonView::Text(tool_description(tool))),
            ("inputSchema"@, schema_json(tool_parameters(tool))),
        ],
    )
}

/// The tools as they are announced, as JSON.
pub open spec fn catalog_view() -> Seq<JsonView> {
    all_tools().map_values(|tool: Tool| tool_json(tool))
}

impl Parameter {
    /// What the parameter is.
    pub open spec fn view(&self) -> ParameterView {
        ParameterView {
            name: self.name@,
            kind: self.kind,
            choices: self.choices@.map_values(|c: &'static str| c@),
            description: self.description@,
            required: self.required,
        }
    }

    /// The parameter as JSON.
    fn to_json(&self) -> (r: Json)
        ensures
            r.view() == parameter_json(self.view()),
    {
        let kind = match self.kind {
            ParameterKind::Text => "string",
            ParameterKind::Integer => "integer",
        };
        if self.choices.is_empty() {
            return object2(
                "type",
                text(kind),
                "description",
                text(self.description),
            );
        }
        let mut items: Vec<Json> = Vec::new();
        let mut i: usize = 0;
        while i < self.choices.len()
            invariant
                i <= self.choices.len(),
                items@.len() == i,
                forall|k: int|
                    0 <= k < i ==> (#[trigger] items@[k]).view() == JsonView::Text(self.choices@[k]@),
            decreases self.choices.len() - i,
        {
            items.push(text(self.choices[i]));
            i = i + 1;
        }
        proof {
            array_view(items);
            assert(items_view(items@) =~= self.view().choices.map_values(
                |c: Seq<char>| JsonView::Text(c),
            ));
        }
        object3(
            "type",
            text(kind),
            "enum",
            Json::Array(items),
            "description",
            text(self.description),
        )
    }
}

/// What parameters are.
pub open spec fn parameters_view(parameters: Seq<Parameter>) -> Seq<ParameterView> {
    parameters.map_values(|p: Parameter| p.view())
}

impl ToolDefinition {
    /// This is the definition of the tool.
    pub open spec fn defines(&self, tool: Tool) -> bool {
        &&& self.name@ == tool_name(tool)
        &&& self.description@ == tool_description(tool)
        &&& parameters_view(self.parameters@) == tool_parameters(tool)
    }

    /// The schema of the tool's parameters as JSON.
    fn schema(&self) -> (r: Json)
        ensures
            r.view() == schema_json(parameters_view(self.parameters@)),
    {
        let ghost views = parameters_view(self.parameters@);
        let mut properties: Vec<Member> = Vec::new();
        let mut required: Vec<Json> = Vec::new();
        let mut i: usize = 0;
        assert(items_view(required@) =~= required_names(views.take(0)));
        while i < self.parameters.len()
            invariant
                i <= self.parameters.len(),
                views == parameters_view(self.parameters@),
                properties@.len() == i,
                forall|k: int|
                    0 <= k < i ==> (#[trigger] properties@[k]).name@ == views[k].name
                        && properties@[k].value.view() == parameter_json(views[k]),
                items_view(required@) == required_names(views.take(i as int)),
            decreases self.parameters.len() - i,
        {
            let parameter = &self.parameters[i];
            let ghost before = required@;
            proof {
                assert(views[i as int] == parameter.view());
                assert(views.take(i + 1).drop_last() =~= views.take(i as int));
            }
            properties.push(member(parameter.name, parameter.to_json()));
            if parameter.required {
                required.push(text(parameter.name));
                assert(items_view(required@) =~= items_view(before).push(
                    JsonView::Text(parameter.name@),
                ));
            }
            i = i + 1;
        }
        proof {
            assert(views.take(views.len() as int) =~= views);
            object_view(properties);
            array_view(required);
            assert(members_view(properties@) =~= views.map_values(
                |p: ParameterView| (p.name, parameter_json(p)),
            ));
        }
        if required.is_empty() {
            object2("type", text("object"), "properties", Json::Object(properties))
        } else {
            let r = object3(
                "type",
                text("object"),
                "properties",
                Json::Object(properties),
                "required",
                Json::Array(required),
            );
            proof {
                let members = seq![
                    ("type"@, JsonView::Text("object"@)),
                    ("properties"@, JsonView::Object(members_view(properties@))),
                ];
                assert(r.view()->Object_0 =~= members.push(
                    ("required"@, JsonView::Array(required_names(views))),
                ));
            }
            r
        }
    }

    /// The definition as JSON.
    fn to_json(&self, Ghost(tool): Ghost<Tool>) -> (r: Json)
        requires
            self.defines(tool),
        ensures
            r.view() == tool_json(tool),
    {
        object3(
            "name",
            text(self.name),
            "description",
            text(self.description),
            "inputSchema",
            self.schema(),
        )
    }
}

/// A parameter that can take any value of its type.
fn parameter(
    name: &'static str,
    kind: ParameterKind,
    description: &'static str,
    required: bool,
) -> (r: Parameter)
    ensures
        r.view() == free_parameter(name@, kind, description@, required),
{
    let r = Parameter { name, kind, choices: Vec::new(), description, required };
    assert(r.view().choices =~= Seq::empty());
    r
}

/// The parameters that locate a symbol.
fn symbol(file: &'static str) -> (r: Vec<Parameter>)
    ensures
        parameters_view(r@) == symbol_parameters(file@),
{
    let mut parameters: Vec<Parameter> = Vec::new();
    parameters.push(parameter("file_path", ParameterKind::Text, file, true));
    parameters.push(
        parameter("line", ParameterKind::Integer, "1-based line number of the symbol.", true),
    );
    parameters.push(
        parameter(
            "symbol_name",
            ParameterKind::Text,
            "The exact identifier text to locate on that line.",
            true,
        ),
    );
    assert(parameters_view(parameters@) =~= symbol_parameters(file@));
    parameters
}

impl Tool {
    /// The tool of a name.
    pub fn named(name: &str) -> (r: Option<Tool>)
        ensures
            match r {
                Some(tool) => tool_name(tool) == name@,
                None => forall|tool: Tool| #[trigger] tool_name(tool) != name@,
            },
    {
        if same_text(name, "lsp_find_references") {
            Some(Tool::FindReferences)
        } else if same_text(name, "lsp_diagnostics") {
            Some(Tool::Diagnostics)
        } else if same_text(name, "lsp_rename_symbol") {
            Some(Tool::RenameSymbol)
        } else if same_text(name, "lsp_format_document") {
            Some(Tool::FormatDocument)
        } else if same_text(name, "lsp_get_code_actions") {
            Some(Tool::GetCodeActions)
        } else if same_text(name, "lsp_apply_code_action") {
            Some(Tool::ApplyCodeAction)
        } else if same_text(name, "lsp_hover") {
            Some(Tool::Hover)
        } else if same_text(name, "lsp_workspace_symbol") {
            Some(Tool::WorkspaceSymbol)
        } else if same_text(name, "lsp_list_language_servers") {
            Some(Tool::ListLanguageServers)
        } else if same_text(name, "lsp_restart_language_server") {
            Some(Tool::RestartLanguageServer)
        } else if same_text(name, "read_buffer") {
            Some(Tool::ReadBuffer)
        } else if same_text(name, "apply_text_edit") {
            Some(Tool::ApplyTextEdit)
        } else {
            None
        }
    }

    /// The definition of the tool.
    pub fn definition(self) -> (r: ToolDefinition)
        ensures
            r.defines(self),
    {
        let mut parameters: Vec<Parameter> = Vec::new();
        let (name, description) = match self {
            Tool::FindReferences => {
                parameters = symbol("Relative project path of the file containing the symbol.");
                ("lsp_find_references", FIND_REFERENCES)
            },
            Tool::Diagnostics => {
                parameters.push(
                    parameter(
                        "path",
                        ParameterKind::Text,
                        "Optional relative project path. Omit for a project-wide summary.",
                        false,
                    ),
                );
                let mut choices: Vec<&'static str> = Vec::new();
                choices.push("error");
                choices.push("warning");
                choices.push("information");
                choices.push("hint");
                parameters.push(
                    Parameter {
                        name: "min_severity",
                        kind: ParameterKind::Text,
                        choices,
                        description: MIN_SEVERITY,
                        required: false,
                    },
                );
                assert(parameters@[1].view().choices =~= seq!["error"@, "warning"@, "information"@, "hint"@]);
                ("lsp_diagnostics", DIAGNOSTICS)
            },
            Tool::RenameSymbol => {
                parameters = symbol("Relative project path of the file containing the symbol.");
                parameters.push(
                    parameter(
                        "new_name",
                        ParameterKind::Text,
                        "The new identifier to rename the symbol to.",
                        true,
                    ),
                );
                ("lsp_rename_symbol", RENAME_SYMBOL)
            },
            Tool::FormatDocument => {
                parameters.push(
                    parameter(
                        "file_path",
                        ParameterKind::Text,
                        "Relative project path of the file to format.",
                        true,
                    ),
                );
                ("lsp_format_document", FORMAT_DOCUMENT)
            },
            Tool::GetCodeActions => {
                parameters = symbol("Relative project path of the file.");
                ("lsp_get_code_actions", GET_CODE_ACTIONS)
            },
            Tool::ApplyCodeAction => {
                parameters.push(
                    parameter(
                        "index",
                        ParameterKind::Integer,
                        "1-based index of the code action to apply.",
                        true,
                    ),
                );
                ("lsp_apply_code_action", APPLY_CODE_ACTION)
            },
            Tool::Hover => {
                parameters = symbol("Relative project path of the file containing the symbol.");
                ("lsp_hover", HOVER)
            },
            Tool::WorkspaceSymbol => {
                parameters.push(
                    parameter(
                        "query",
                        ParameterKind::Text,
                        "Non-empty search query (typically a substring of the symbol name).",
                        true,
                    ),
                );
                ("lsp_workspace_symbol", WORKSPACE_SYMBOL)
            },
            Tool::ListLanguageServers => {
                ("lsp_list_language_servers", LIST_LANGUAGE_SERVERS)
            },
            Tool::RestartLanguageServer => {
                parameters.push(
                    parameter(
                        "name",
                        ParameterKind::Text,
                        "Language server name as reported by lsp_list_language_servers (e.g. 'rust-analyzer').",
                        true,
                    ),
                );
                parameters.push(
                    parameter(
                        "reason",
                        ParameterKind::Text,
                        "Short justification visible to the user (e.g. 'diagnostics stale after large refactor').",
                        true,
                    ),
                );
                ("lsp_restart_language_server", RESTART_LANGUAGE_SERVER)
            },
            Tool::ReadBuffer => {
                parameters.push(
                    parameter(
                        "file_path",
                        ParameterKind::Text,
                        "Relative project path.",
                        true,
                    ),
                );
                parameters.push(
                    parameter(
                        "start_line",
                        ParameterKind::Integer,
                        "Optional 1-based line to start from.",
                        false,
                    ),
                );
                parameters.push(
                    parameter(
                        "end_line",
                        ParameterKind::Integer,
                        "Optional inclusive 1-based line to end at.",
                        false,
                    ),
                );
                ("read_buffer", READ_BUFFER)
            },
            Tool::ApplyTextEdit => {
                parameters.push(
                    parameter(
                        "file_path",
                        ParameterKind::Text,
                        "Relative project path.",
                        true,
                    ),
                );
                parameters.push(
                    parameter(
                        "old_string",
                        ParameterKind::Text,
                        "Exact text to replace. Must appear exactly once in the buffer.",
                        true,
                    ),
                );
                parameters.push(
                    parameter(
                        "new_string",
                        ParameterKind::Text,
                        "Replacement text.",
                        true,
                    ),
                );
                ("apply_text_edit", APPLY_TEXT_EDIT)
            },
        };
        assert(parameters_view(parameters@) =~= tool_parameters(self));
        ToolDefinition { name, description, parameters }
    }
}

/// The definitions of all tools.
pub fn tool_definitions() -> (r: Vec<ToolDefinition>)
    ensures
        r@.len() == all_tools().len(),
        forall|i: int| 0 <= i < r@.len() ==> (#[trigger] r@[i]).defines(all_tools()[i]),
{
    let mut definitions: Vec<ToolDefinition> = Vec::new();
    definitions.push(Tool::FindReferences.definition());
    definitions.push(Tool::Diagnostics.definition());
    definitions.push(Tool::RenameSymbol.definition());
    definitions.push(Tool::FormatDocument.definition());
    definitions.push(Tool::GetCodeActions.definition());
    definitions.push(Tool::ApplyCodeAction.definition());
    definitions.push(Tool::Hover.definition());
    definitions.push(Tool::WorkspaceSymbol.definition());
    definitions.push(Tool::ListLanguageServers.definition());
    definitions.push(Tool::RestartLanguageServer.definition());
    definitions.push(Tool::ReadBuffer.definition());
    definitions.push(Tool::ApplyTextEdit.definition());
    definitions
}

/// The definitions of all tools as JSON.
pub fn tools_json() -> (r: Json)
    ensures
        r.view() == JsonView::Array(catalog_view()),
{
    let definitions = tool_definitions();
    let mut items: Vec<Json> = Vec::new();
    let mut i: usize = 0;
    while i < definitions.len()
        invariant
            i <= definitions.len(),
            definitions@.len() == all_tools().len(),
            forall|i: int|
                0 <= i < definitions@.len() ==> (#[trigger] definitions@[i]).defines(all_tools()[i]),
            items@.len() == i,
            forall|k: int| 0 <= k < i ==> (#[trigger] items@[k]).view() == tool_json(all_tools()[k]),
        decreases definitions.len() - i,
    {
        items.push(definitions[i].to_json(Ghost(all_tools()[i as int])));
        i = i + 1;
    }
    proof {
        array_view(items);
        assert(items_view(items@) =~= catalog_view());
    }
    Json::Array(items)
}

/// How the editor displays calls of a tool.
pub open spec fn kind_of(name: Seq<char>) -> Seq<char> {
    if name == tool_name(Tool::ApplyTextEdit) || name == tool_name(Tool::FormatDocument) || name
        == tool_name(Tool::RenameSymbol) || name == tool_name(Tool::ApplyCodeAction) {
        "edit"@
    } else if name == tool_name(Tool::FindReferences) || name == tool_name(Tool::WorkspaceSymbol) {
        "search"@
    } else if name == tool_name(Tool::Diagnostics) || name == tool_name(Tool::Hover) || name
        == tool_name(Tool::ReadBuffer) || name == tool_name(Tool::ListLanguageServers) {
        "read"@
    } else {
        "other"@
    }
}

/// How the editor displays calls of a tool.
pub fn kind_for_tool(name: &str) -> (r: &'static str)
    ensures
        r@ == kind_of(name@),
{
    proof {
        tool_names_differ();
    }
    match Tool::named(name) {
        Some(Tool::ApplyTextEdit)
        | Some(Tool::FormatDocument)
        | Some(Tool::RenameSymbol)
        | Some(Tool::ApplyCodeAction) => "edit",
        Some(Tool::FindReferences) | Some(Tool::WorkspaceSymbol) => "search",
        Some(Tool::Diagnostics)
        | Some(Tool::Hover)
        | Some(Tool::ReadBuffer)
        | Some(Tool::ListLanguageServers) => "read",
        _ => "other",
    }
}

/// No two tools have the same name.
pub proof fn tool_names_differ()
    ensures
        forall|a: Tool, b: Tool| #[trigger] tool_name(a) == #[trigger] tool_name(b) ==> a == b,
{
    reveal_strlit("lsp_find_references");
    reveal_strlit("lsp_diagnostics");
    reveal_strlit("lsp_rename_symbol");
    reveal_strlit("lsp_format_document");
    reveal_strlit("lsp_get_code_actions");
    reveal_strlit("lsp_apply_code_action");
    reveal_strlit("lsp_hover");
    reveal_strlit("lsp_workspace_symbol");
    reveal_strlit("lsp_list_language_servers");
    reveal_strlit("lsp_restart_language_server");
    reveal_strlit("read_buffer");
    reveal_strlit("apply_text_edit");
    assert("lsp_find_references"@.len() == 19);
    assert("lsp_diagnostics"@.len() == 15);
    assert("lsp_rename_symbol"@.len() == 17);
    assert("lsp_format_document"@.len() == 19);
    assert("lsp_get_code_actions"@.len() == 20);
    assert("lsp_apply_code_action"@.len() == 21);
    assert("lsp_hover"@.len() == 9);
    assert("lsp_workspace_symbol"@.len() == 20);
    assert("lsp_list_language_servers"@.len() == 25);
    assert("lsp_restart_language_server"@.len() == 27);
    assert("read_buffer"@.len() == 11);
    assert("apply_text_edit"@.len() == 15);
    assert("lsp_find_references"@[5] == 'i' && "lsp_format_document"@[5] == 'o');
    assert("lsp_diagnostics"@[0] == 'l' && "apply_text_edit"@[0] == 'a');
    assert("lsp_get_code_actions"@[4] == 'g' && "lsp_workspace_symbol"@[4] == 'w');
}

/// Every tool is announced, and announced once.
pub proof fn every_tool_is_announced(tool: Tool)
    ensures
        exists|i: int|
            {
                &&& 0 <= i < all_tools().len()
                &&& #[trigger] all_tools()[i] == tool
                &&& forall|j: int| 0 <= j < all_tools().len() && j != i ==> #[trigger] all_tools()[j] != tool
            },
{
    let i = match tool {
        Tool::FindReferences => 0int,
        Tool::Diagnostics => 1int,
        Tool::RenameSymbol => 2int,
        Tool::FormatDocument => 3int,
        Tool::GetCodeActions => 4int,
        Tool::ApplyCodeAction => 5int,
        Tool::Hover => 6int,
        Tool::WorkspaceSymbol => 7int,
        Tool::ListLanguageServers => 8int,
        Tool::RestartLanguageServer => 9int,
        Tool::ReadBuffer => 10int,
        Tool::ApplyTextEdit => 11int,
    };
    assert(all_tools()[i] == tool);
}

} // verus!
