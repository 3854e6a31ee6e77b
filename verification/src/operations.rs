//! The operations that agents have at their disposal.

use vstd::prelude::*;

use crate::code_actions::PendingCodeActions;
use crate::symbol::SymbolLocator;

verus! {

/// An operation with all that it takes to carry it out.
pub enum Operation {
    FindReferences(SymbolLocator),
    Diagnostics { path: Option<String>, min_severity: Option<String> },
    RenameSymbol { symbol: SymbolLocator, new_name: String },
    ReadBuffer { file_path: String, start_line: Option<u32>, end_line: Option<u32> },
    ApplyTextEdit { file_path: String, old_string: String, new_string: String },
    FormatDocument { file_path: String },
    /// List code actions, and name the tool that applies one of them.
    GetCodeActions { symbol: SymbolLocator, apply_tool_name: &'static str },
    ApplyCodeAction { index: u32, list: PendingCodeActions },
    Hover(SymbolLocator),
    WorkspaceSymbol { query: String },
    ListLanguageServers,
    RestartLanguageServer { name: String, reason: String },
}

} // verus!
