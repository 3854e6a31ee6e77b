//! Operations that change files through a language server: renaming and formatting.

use vstd::prelude::*;
use vstd::string::*;

use crate::edits::{
    is_change, is_failure, is_text, report_changes, EditDiff, EditOperationOutput, EditOutput,
    TouchedBuffers,
};
use crate::symbol::SymbolLocator;
use crate::text::{concat2, concat3, concat4, concat5, concat7, decimal, decimal_text};

verus! {

/// What the editor reports while a symbol is being renamed.
pub enum RenameEvent {
    /// The symbol was resolved in a buffer, or could not be.
    Resolved(Result<(), String>),
    /// Whether a language server is running for the buffer.
    ServerChecked(bool),
    /// The rename was made and touched the buffers, or it failed.
    Renamed(Result<Vec<u64>, String>),
    /// The touched buffers were saved, or could not be. The symbol was resolved in
    /// `starting_buffer`.
    Saved { starting_buffer: u64, saved: Result<TouchedBuffers, String> },
}

/// What is to be done next to rename a symbol.
pub enum RenameAction {
    /// Find out whether a language server is running for the buffer.
    CheckServer,
    /// Remember the texts of the open buffers and rename the symbol to the name.
    Perform { new_name: String },
    /// Save the buffers.
    Save { buffers: Vec<u64> },
    Finish(Result<EditOperationOutput, String>),
}

impl RenameAction {
    /// The rename ends with `text`, having changed nothing.
    pub open spec fn ends_with(&self, text: Seq<char>) -> bool {
        self matches RenameAction::Finish(result) && is_text(*result, text)
    }

    /// The rename fails with `message`.
    pub open spec fn fails_with(&self, message: Seq<char>) -> bool {
        self matches RenameAction::Finish(result) && is_failure(*result, message)
    }
}

/// Renames a symbol, step by step.
pub fn rename_symbol(symbol: &SymbolLocator, new_name: &str, event: RenameEvent) -> (action:
    RenameAction)
    ensures
        match event {
            RenameEvent::Resolved(Ok(_)) => action is CheckServer,
            RenameEvent::Resolved(Err(error)) => action.fails_with(error@),
            RenameEvent::ServerChecked(true) => action matches RenameAction::Perform { new_name: n }
                && n@ == new_name@,
            RenameEvent::ServerChecked(false) => action.ends_with(
                "No language server is running for `"@ + symbol.file_path@
                    + "`. Enable or install a language server in Zed before attempting an LSP-backed rename."@,
            ),
            RenameEvent::Renamed(Err(error)) => action.fails_with("Rename failed: "@ + error@),
            RenameEvent::Renamed(Ok(touched)) => if touched@.len() == 0 {
                action.ends_with(
                    "No changes were made. The language server could not rename '"@
                        + symbol.symbol_name@ + "'."@,
                )
            } else {
                action matches RenameAction::Save { buffers } && buffers == touched
            },
            RenameEvent::Saved { saved: Err(error), .. } => action.fails_with(
                "Rename succeeded, but failed to save renamed files: "@ + error@,
            ),
            RenameEvent::Saved { starting_buffer, saved: Ok(touched) } => {
                &&& action matches RenameAction::Finish(result)
                &&& is_change(
                    result,
                    "Renamed `"@ + symbol.symbol_name@ + "` to `"@ + new_name@ + "` in "@ + decimal(
                        touched.buffers@.len(),
                    ) + " file(s):\n"@,
                    touched,
                    starting_buffer,
                )
            },
        },
{
    match event {
        RenameEvent::Resolved(Ok(_)) => RenameAction::CheckServer,
        RenameEvent::Resolved(Err(error)) => RenameAction::Finish(Err(error)),
        RenameEvent::ServerChecked(running) => if running {
            RenameAction::Perform { new_name: new_name.to_string() }
        } else {
            RenameAction::Finish(
                Ok(
                    EditOperationOutput::Text(
                        concat3(
                            "No language server is running for `",
                            symbol.file_path.as_str(),
                            "`. Enable or install a language server in Zed before attempting an LSP-backed rename.",
                        ),
                    ),
                ),
            )
        },
        RenameEvent::Renamed(Err(error)) => RenameAction::Finish(
            Err(concat2("Rename failed: ", error.as_str())),
        ),
        RenameEvent::Renamed(Ok(touched)) => if touched.is_empty() {
            RenameAction::Finish(
                Ok(
                    EditOperationOutput::Text(
                        concat3(
                            "No changes were made. The language server could not rename '",
                            symbol.symbol_name.as_str(),
                            "'.",
                        ),
                    ),
                ),
            )
        } else {
            RenameAction::Save { buffers: touched }
        },
        RenameEvent::Saved { saved: Err(error), .. } => RenameAction::Finish(
            Err(
                concat2(
                    "Rename succeeded, but failed to save renamed files: ",
                    error.as_str(),
                ),
            ),
        ),
        RenameEvent::Saved { starting_buffer, saved: Ok(touched) } => {
            let heading = concat7(
                "Renamed `",
                symbol.symbol_name.as_str(),
                "` to `",
                new_name,
                "` in ",
                decimal_text(touched.buffers.len() as u64).as_str(),
                " file(s):\n",
            );
            RenameAction::Finish(Ok(report_changes(heading, touched, starting_buffer)))
        },
    }
}

/// A buffer before and after it was formatted, while nothing is saved yet.
pub struct FormattedBuffer {
    pub id: u64,
    /// The path on the local disk, where there is one.
    pub abs_path: Option<String>,
    pub old_text: String,
    pub new_text: String,
    /// The number of buffers that the formatter touched.
    pub touched: usize,
}

/// What the editor reports while a file is being formatted.
pub enum FormatEvent {
    /// The project was searched for the path.
    PathSearched { found: bool },
    /// The buffer was opened and leased for the language servers, or could not be opened.
    Opened(Result<(), String>),
    /// Whether a language server is running for the buffer.
    ServerChecked(bool),
    /// The formatter ran, or failed.
    Formatted(Result<FormattedBuffer, String>),
    /// The buffer was saved, or could not be.
    Saved { formatted: FormattedBuffer, saved: Result<(), String> },
}

/// What is to be done next to format a file.
pub enum FormatAction {
    /// Open the buffer at the path that was found.
    OpenBuffer,
    /// Find out whether a language server is running for the buffer.
    CheckServer,
    /// Format the buffer.
    Perform,
    /// Save the buffer that was formatted.
    Save(FormattedBuffer),
    Finish(Result<EditOperationOutput, String>),
}

impl FormatAction {
    /// The formatting ends with `text`, having changed nothing.
    pub open spec fn ends_with(&self, text: Seq<char>) -> bool {
        self matches FormatAction::Finish(result) && is_text(*result, text)
    }

    /// The formatting fails with `message`.
    pub open spec fn fails_with(&self, message: Seq<char>) -> bool {
        self matches FormatAction::Finish(result) && is_failure(*result, message)
    }
}

/// Formats a file, step by step.
pub fn format_document(file_path: &str, event: FormatEvent) -> (action: FormatAction)
    ensures
        match event {
            FormatEvent::PathSearched { found } => if found {
                action is OpenBuffer
            } else {
                action.fails_with("Could not find path '"@ + file_path@ + "' in project"@)
            },
            FormatEvent::Opened(Ok(_)) => action is CheckServer,
            FormatEvent::Opened(Err(error)) => action.fails_with(
                "Failed to open '"@ + file_path@ + "': "@ + error@,
            ),
            FormatEvent::ServerChecked(true) => action is Perform,
            FormatEvent::ServerChecked(false) => action.ends_with(
                "No language server is running for `"@ + file_path@
                    + "`. Enable or install a language server in Zed before formatting."@,
            ),
            FormatEvent::Formatted(Ok(formatted)) => action matches FormatAction::Save(f) && f
                == formatted,
            FormatEvent::Formatted(Err(error)) => action.fails_with(
                "Format failed for '"@ + file_path@ + "': "@ + error@,
            ),
            FormatEvent::Saved { saved: Err(error), .. } => action.fails_with(
                "Format applied in-memory but save failed: "@ + error@,
            ),
            FormatEvent::Saved { formatted: buffer, saved: Ok(_) } => {
                &&& action matches FormatAction::Finish(Ok(EditOperationOutput::Edited(output)))
                &&& output.text@ == "Formatted `"@ + file_path@ + "` and saved to disk ("@
                    + decimal(buffer.touched as nat) + " buffer(s) touched)."@
                &&& output.diffs@.len() == 1
                &&& output.diffs@[0].path@ == file_path@
                &&& output.diffs@[0].abs_path@ == match buffer.abs_path {
                    Some(path) => path@,
                    None => Seq::empty(),
                }
                &&& output.diffs@[0].line is None
                &&& output.diffs@[0].old_text == buffer.old_text
                &&& output.diffs@[0].new_text == buffer.new_text
            },
        },
{
    match event {
        FormatEvent::PathSearched { found } => if found {
            FormatAction::OpenBuffer
        } else {
            FormatAction::Finish(Err(concat3("Could not find path '", file_path, "' in project")))
        },
        FormatEvent::Opened(Ok(_)) => FormatAction::CheckServer,
        FormatEvent::Opened(Err(error)) => FormatAction::Finish(
            Err(concat4("Failed to open '", file_path, "': ", error.as_str())),
        ),
        FormatEvent::ServerChecked(running) => if running {
            FormatAction::Perform
        } else {
            FormatAction::Finish(
                Ok(
                    EditOperationOutput::Text(
                        concat3(
                            "No language server is running for `",
                            file_path,
                            "`. Enable or install a language server in Zed before formatting.",
                        ),
                    ),
                ),
            )
        },
        FormatEvent::Formatted(Ok(formatted)) => FormatAction::Save(formatted),
        FormatEvent::Formatted(Err(error)) => FormatAction::Finish(
            Err(concat4("Format failed for '", file_path, "': ", error.as_str())),
        ),
        FormatEvent::Saved { saved: Err(error), .. } => FormatAction::Finish(
            Err(concat2("Format applied in-memory but save failed: ", error.as_str())),
        ),
        FormatEvent::Saved { formatted: buffer, saved: Ok(_) } => {
            let text = concat5(
                "Formatted `",
                file_path,
                "` and saved to disk (",
                decimal_text(buffer.touched as u64).as_str(),
                " buffer(s) touched).",
            );
            let mut diffs: Vec<EditDiff> = Vec::new();
            diffs.push(
                EditDiff {
                    path: file_path.to_string(),
                    abs_path: match buffer.abs_path {
                        Some(path) => path,
                        None => String::new(),
                    },
                    line: None,
                    old_text: buffer.old_text,
                    new_text: buffer.new_text,
                },
            );
            FormatAction::Finish(Ok(EditOperationOutput::Edited(EditOutput { text, diffs })))
        },
    }
}

} // verus!
