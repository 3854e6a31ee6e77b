//! Operations that look something up: references, definitions and hover information.

use vstd::prelude::*;
use vstd::string::*;

use crate::location::{list_locations, location_list, LocationDisplay};
use crate::symbol::SymbolLocator;
use crate::text::{chars_of, concat2, concat3, concat5, concat7, decimal, decimal_text};

verus! {

/// What the editor reports while places are being looked up.
pub enum LookupEvent {
    /// The symbol was resolved in a buffer, or could not be.
    Resolved(Result<(), String>),
    /// Whether a language server is running for the buffer.
    ServerChecked(bool),
    /// The language servers answered; `None` where none of them can.
    Answered(Result<Option<Vec<LocationDisplay>>, String>),
}

/// What is to be done next to look something up.
pub enum LookupAction {
    CheckServer,
    Query,
    Finish(Result<String, String>),
}

impl LookupAction {
    /// The lookup ends with `text`.
    pub open spec fn ends_with(&self, text: Seq<char>) -> bool {
        self matches LookupAction::Finish(Ok(t)) && t@ == text
    }

    /// The lookup fails with `message`.
    pub open spec fn fails_with(&self, message: Seq<char>) -> bool {
        self matches LookupAction::Finish(Err(error)) && error@ == message
    }
}

/// The answer where no language server is running for a file, with what it takes to have one.
pub open spec fn no_server(file_path: Seq<char>, advice: Seq<char>) -> Seq<char> {
    "No language server is running for `"@ + file_path + advice
}

/// Finds the references to a symbol, step by step.
pub fn find_references(symbol: &SymbolLocator, event: LookupEvent) -> (action: LookupAction)
    ensures
        match event {
            LookupEvent::Resolved(Ok(_)) => action is CheckServer,
            LookupEvent::Resolved(Err(error)) => action.fails_with(error@),
            LookupEvent::ServerChecked(true) => action is Query,
            LookupEvent::ServerChecked(false) => action.ends_with(
                no_server(
                    symbol.file_path@,
                    "`. Enable or install a language server in Zed before relying on LSP-backed lookups."@,
                ),
            ),
            LookupEvent::Answered(Err(error)) => action.fails_with(
                "Find references failed: "@ + error@,
            ),
            LookupEvent::Answered(Ok(None)) => action.ends_with(
                "No language server capable of finding references is available for `"@
                    + symbol.file_path@ + "`."@,
            ),
            LookupEvent::Answered(Ok(Some(references))) => if references@.len() == 0 {
                action.ends_with("No references found for '"@ + symbol.symbol_name@ + "'."@)
            } else {
                action.ends_with(
                    "Found "@ + decimal(references@.len()) + " references to `"@
                        + symbol.symbol_name@ + "`:\n"@ + location_list(references@),
                )
            },
        },
{
    match event {
        LookupEvent::Resolved(Ok(_)) => LookupAction::CheckServer,
        LookupEvent::Resolved(Err(error)) => LookupAction::Finish(Err(error)),
        LookupEvent::ServerChecked(running) => if running {
            LookupAction::Query
        } else {
            LookupAction::Finish(
                Ok(
                    concat3(
                        "No language server is running for `",
                        symbol.file_path.as_str(),
                        "`. Enable or install a language server in Zed before relying on LSP-backed lookups.",
                    ),
                ),
            )
        },
        LookupEvent::Answered(Err(error)) => LookupAction::Finish(
            Err(concat2("Find references failed: ", error.as_str())),
        ),
        LookupEvent::Answered(Ok(None)) => LookupAction::Finish(
            Ok(
                concat3(
                    "No language server capable of finding references is available for `",
                    symbol.file_path.as_str(),
                    "`.",
                ),
            ),
        ),
        LookupEvent::Answered(Ok(Some(references))) => LookupAction::Finish(
            Ok(
                if references.is_empty() {
                    concat3("No references found for '", symbol.symbol_name.as_str(), "'.")
                } else {
                    let mut out = concat5(
                        "Found ",
                        decimal_text(references.len() as u64).as_str(),
                        " references to `",
                        symbol.symbol_name.as_str(),
                        "`:\n",
                    );
                    out.append(list_locations(&references).as_str());
                    out
                },
            ),
        ),
    }
}

/// Finds the definitions of a symbol, step by step.
pub fn go_to_definition(symbol: &SymbolLocator, event: LookupEvent) -> (action: LookupAction)
    ensures
        match event {
            LookupEvent::Resolved(Ok(_)) => action is CheckServer,
            LookupEvent::Resolved(Err(error)) => action.fails_with(error@),
            LookupEvent::ServerChecked(true) => action is Query,
            LookupEvent::ServerChecked(false) => action.ends_with(
                no_server(
                    symbol.file_path@,
                    "`. Enable or install a language server in Zed before relying on LSP-backed lookups."@,
                ),
            ),
            LookupEvent::Answered(Err(error)) => action.fails_with(
                "Go to definition failed: "@ + error@,
            ),
            LookupEvent::Answered(Ok(None)) => action.ends_with(
                "No language server capable of resolving definitions is available for `"@
                    + symbol.file_path@ + "`."@,
            ),
            LookupEvent::Answered(Ok(Some(definitions))) => if definitions@.len() == 0 {
                action.ends_with("No definition found for '"@ + symbol.symbol_name@ + "'."@)
            } else if definitions@.len() == 1 {
                action.ends_with(
                    "Definition of `"@ + symbol.symbol_name@ + "`:\n"@ + location_list(
                        definitions@,
                    ),
                )
            } else {
                action.ends_with(
                    "Found "@ + decimal(definitions@.len()) + " definitions of `"@
                        + symbol.symbol_name@ + "`:\n"@ + location_list(definitions@),
                )
            },
        },
{
    match event {
        LookupEvent::Resolved(Ok(_)) => LookupAction::CheckServer,
        LookupEvent::Resolved(Err(error)) => LookupAction::Finish(Err(error)),
        LookupEvent::ServerChecked(running) => if running {
            LookupAction::Query
        } else {
            LookupAction::Finish(
                Ok(
                    concat3(
                        "No language server is running for `",
                        symbol.file_path.as_str(),
                        "`. Enable or install a language server in Zed before relying on LSP-backed lookups.",
                    ),
                ),
            )
        },
        LookupEvent::Answered(Err(error)) => LookupAction::Finish(
            Err(concat2("Go to definition failed: ", error.as_str())),
        ),
        LookupEvent::Answered(Ok(None)) => LookupAction::Finish(
            Ok(
                concat3(
                    "No language server capable of resolving definitions is available for `",
                    symbol.file_path.as_str(),
                    "`.",
                ),
            ),
        ),
        LookupEvent::Answered(Ok(Some(definitions))) => LookupAction::Finish(
            Ok(
                if definitions.is_empty() {
                    concat3("No definition found for '", symbol.symbol_name.as_str(), "'.")
                } else {
                    let mut out = if definitions.len() == 1 {
                        concat3("Definition of `", symbol.symbol_name.as_str(), "`:\n")
                    } else {
                        concat5(
                            "Found ",
                            decimal_text(definitions.len() as u64).as_str(),
                            " definitions of `",
                            symbol.symbol_name.as_str(),
                            "`:\n",
                        )
                    };
                    out.append(list_locations(&definitions).as_str());
                    out
                },
            ),
        ),
    }
}

/// How a block of hover information is written.
pub enum HoverBlockKind {
    PlainText,
    Markdown,
    Code { language: String },
}

/// A block of hover information.
pub struct HoverBlock {
    pub text: String,
    pub kind: HoverBlockKind,
}

/// One language server's hover information. Whether it is empty is the editor's to say.
pub struct Hover {
    pub contents: Vec<HoverBlock>,
    pub is_empty: bool,
}

/// What the editor reports while hover information is being fetched.
pub enum HoverEvent {
    /// The symbol was resolved in a buffer, or could not be.
    Resolved(Result<(), String>),
    /// Whether a language server is running for the buffer.
    ServerChecked(bool),
    /// The language servers answered; `None` where the request came to nothing.
    Answered(Option<Vec<Hover>>),
}

/// `s` ends with a line break.
pub open spec fn ends_line(s: Seq<char>) -> bool {
    s.len() > 0 && s.last() == '\n'
}

/// `s` with a line break at its end.
pub open spec fn line_ended(s: Seq<char>) -> Seq<char> {
    if ends_line(s) {
        s
    } else {
        s + "\n"@
    }
}

/// A block of hover information as it is written.
pub open spec fn block_text(block: HoverBlock) -> Seq<char> {
    match block.kind {
        HoverBlockKind::PlainText => block.text@,
        HoverBlockKind::Markdown => block.text@,
        HoverBlockKind::Code { language } => "```"@ + language@ + "\n"@ + line_ended(block.text@)
            + "```"@,
    }
}

/// `output` with the blocks below it, each on lines of its own after an empty line.
pub open spec fn with_blocks(output: Seq<char>, blocks: Seq<HoverBlock>) -> Seq<char>
    decreases blocks.len(),
{
    if blocks.len() == 0 {
        output
    } else {
        line_ended(with_blocks(output, blocks.drop_last()) + "\n"@ + block_text(blocks.last()))
    }
}

/// `output` with the blocks of all hovers that are not empty below it.
pub open spec fn with_hovers(output: Seq<char>, hovers: Seq<Hover>) -> Seq<char>
    decreases hovers.len(),
{
    if hovers.len() == 0 {
        output
    } else {
        let before = with_hovers(output, hovers.drop_last());
        if hovers.last().is_empty {
            before
        } else {
            with_blocks(before, hovers.last().contents@)
        }
    }
}

/// Whether `s` ends with a line break.
fn is_line_ended(s: &str) -> (r: bool)
    ensures
        r == ends_line(s@),
{
    let chars = chars_of(s);
    chars.len() > 0 && chars[chars.len() - 1] == '\n'
}

/// Puts a line break at the end of `s` unless it has one.
fn end_line(s: String) -> (r: String)
    ensures
        r@ == line_ended(s@),
{
    if is_line_ended(s.as_str()) {
        s
    } else {
        s.concat("\n")
    }
}

/// Writes a block of hover information.
fn write_block(block: &HoverBlock) -> (r: String)
    ensures
        r@ == block_text(*block),
{
    match &block.kind {
        HoverBlockKind::PlainText => block.text.clone(),
        HoverBlockKind::Markdown => block.text.clone(),
        HoverBlockKind::Code { language } => {
            let code = end_line(block.text.clone());
            concat5("```", language.as_str(), "\n", code.as_str(), "```")
        },
    }
}

/// Every hover is empty.
pub open spec fn all_empty(hovers: Seq<Hover>) -> bool {
    forall|i: int| 0 <= i < hovers.len() ==> (#[trigger] hovers[i]).is_empty
}

impl SymbolLocator {
    /// The hover information for this symbol as the agent reads it.
    pub open spec fn hover_answer(&self, hovers: Seq<Hover>) -> Seq<char> {
        if all_empty(hovers) {
            "No hover information available for '"@ + self.symbol_name@ + "' at "@ + self.file_path@
                + ":"@ + decimal(self.line as nat) + "."@
        } else {
            with_hovers("Hover info for `"@ + self.symbol_name@ + "`:\n"@, hovers)
        }
    }
}

/// Writes the hover information for a symbol.
fn write_hovers(symbol: &SymbolLocator, hovers: &Vec<Hover>) -> (r: String)
    ensures
        r@ == symbol.hover_answer(hovers@),
{
    let mut out = concat3("Hover info for `", symbol.symbol_name.as_str(), "`:\n");
    let ghost heading = out@;
    let mut none = true;
    let mut i: usize = 0;
    while i < hovers.len()
        invariant
            i <= hovers.len(),
            none == all_empty(hovers@.take(i as int)),
            out@ == with_hovers(heading, hovers@.take(i as int)),
        decreases hovers.len() - i,
    {
        let ghost shown = hovers@.take(i as int);
        proof {
            assert(hovers@.take(i + 1).drop_last() =~= shown);
            assert(hovers@.take(i + 1)[i as int] == hovers@[i as int]);
            assert(forall|k: int| 0 <= k < i ==> #[trigger] hovers@.take(i + 1)[k] == shown[k]);
        }
        if !hovers[i].is_empty {
            none = false;
            let ghost before = out@;
            let blocks = &hovers[i].contents;
            let mut b: usize = 0;
            while b < blocks.len()
                invariant
                    b <= blocks.len(),
                    out@ == with_blocks(before, blocks@.take(b as int)),
                decreases blocks.len() - b,
            {
                proof {
                    assert(blocks@.take(b + 1).drop_last() =~= blocks@.take(b as int));
                }
                out.append("\n");
                out.append(write_block(&blocks[b]).as_str());
                out = end_line(out);
                b = b + 1;
            }
            assert(blocks@.take(blocks@.len() as int) =~= blocks@);
        }
        proof {
            if all_empty(hovers@.take(i + 1)) {
                assert(all_empty(shown)) by {
                    assert(forall|k: int| 0 <= k < i ==> (#[trigger] shown[k]) == hovers@.take(i + 1)[k]);
                }
            }
        }
        i = i + 1;
    }
    assert(hovers@.take(hovers@.len() as int) =~= hovers@);
    if none {
        concat7(
            "No hover information available for '",
            symbol.symbol_name.as_str(),
            "' at ",
            symbol.file_path.as_str(),
            ":",
            decimal_text(symbol.line as u64).as_str(),
            ".",
        )
    } else {
        out
    }
}

/// Fetches the hover information for a symbol, step by step.
pub fn hover(symbol: &SymbolLocator, event: HoverEvent) -> (action: LookupAction)
    ensures
        match event {
            HoverEvent::Resolved(Ok(_)) => action is CheckServer,
            HoverEvent::Resolved(Err(error)) => action.fails_with(error@),
            HoverEvent::ServerChecked(true) => action is Query,
            HoverEvent::ServerChecked(false) => action.ends_with(
                no_server(
                    symbol.file_path@,
                    "`. Enable or install a language server in Zed before requesting hover info."@,
                ),
            ),
            HoverEvent::Answered(Some(hovers)) => action.ends_with(symbol.hover_answer(hovers@)),
            HoverEvent::Answered(None) => action.ends_with(symbol.hover_answer(Seq::empty())),
        },
{
    match event {
        HoverEvent::Resolved(Ok(_)) => LookupAction::CheckServer,
        HoverEvent::Resolved(Err(error)) => LookupAction::Finish(Err(error)),
        HoverEvent::ServerChecked(running) => if running {
            LookupAction::Query
        } else {
            LookupAction::Finish(
                Ok(
                    concat3(
                        "No language server is running for `",
                        symbol.file_path.as_str(),
                        "`. Enable or install a language server in Zed before requesting hover info.",
                    ),
                ),
            )
        },
        HoverEvent::Answered(answer) => {
            let hovers: Vec<Hover> = match answer {
                Some(hovers) => hovers,
                None => Vec::new(),
            };
            LookupAction::Finish(Ok(write_hovers(symbol, &hovers)))
        },
    }
}

} // verus!
