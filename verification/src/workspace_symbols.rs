//! Searching the workspace for symbols.

use vstd::prelude::*;
use vstd::string::*;

use crate::search::{contains_every_word, holds_every_word, trim, trimmed};
use crate::text::{
    chars_of, concat2, concat3, concat5, concat7, concat9, decimal, decimal_text, lowercase, text_of,
};

verus! {

/// The number of symbols that are shown at most.
pub const MAX_WORKSPACE_SYMBOL_RESULTS: usize = 100;

/// Where a symbol is defined.
pub enum SymbolLocation {
    /// In the project, at a path for display.
    InProject { path: String },
    /// Outside of the project, at an absolute path.
    OutsideProject { abs_path: String },
}

/// A symbol that a language server reports.
pub struct Symbol {
    pub name: String,
    /// The name of the symbol's kind.
    pub kind: String,
    pub container_name: Option<String>,
    pub location: SymbolLocation,
    /// 0-based row.
    pub row: u32,
}

impl Symbol {
    /// The path at which the symbol is defined.
    pub open spec fn path(&self) -> Seq<char> {
        match self.location {
            SymbolLocation::InProject { path } => path@,
            SymbolLocation::OutsideProject { abs_path } => abs_path@,
        }
    }

    /// The text in which a query is looked for: name, container and path in lower case.
    pub open spec fn haystack(&self) -> Seq<char> {
        let container = match self.container_name {
            Some(container) => " "@ + lowercase(container@),
            None => ""@,
        };
        lowercase(self.name@) + container + " "@ + lowercase(self.path())
    }

    /// The symbol as a line of text.
    pub open spec fn line(&self) -> Seq<char> {
        let container = match self.container_name {
            Some(container) => " ("@ + container@ + ")"@,
            None => ""@,
        };
        "- "@ + self.kind@ + " `"@ + self.name@ + "`"@ + container + " — "@ + self.path() + (":"@
            + decimal((self.row + 1) as nat) + "\n"@)
    }
}

/// The path at which a symbol is defined.
pub fn symbol_path(symbol: &Symbol) -> (r: &str)
    ensures
        r@ == symbol.path(),
{
    match &symbol.location {
        SymbolLocation::InProject { path } => path.as_str(),
        SymbolLocation::OutsideProject { abs_path } => abs_path.as_str(),
    }
}

/// Whether every word of a query in lower case stands in a symbol's name, container or path.
pub fn symbol_matches_query(symbol: &Symbol, query_lowercase: &str) -> (r: bool)
    ensures
        r == holds_every_word(symbol.haystack(), query_lowercase@),
{
    let name = symbol.name.as_str().to_lowercase();
    let container = match &symbol.container_name {
        Some(container) => concat2(" ", container.as_str().to_lowercase().as_str()),
        None => "".to_string(),
    };
    let haystack = crate::text::concat4(
        name.as_str(),
        container.as_str(),
        " ",
        symbol_path(symbol).to_lowercase().as_str(),
    );
    contains_every_word(&chars_of(haystack.as_str()), &chars_of(query_lowercase))
}

/// Writes a symbol as a line of text below `output`.
pub fn format_symbol(output: &mut String, symbol: &Symbol)
    ensures
        final(output)@ == old(output)@ + symbol.line(),
{
    let container = match &symbol.container_name {
        Some(container) => concat3(" (", container.as_str(), ")"),
        None => "".to_string(),
    };
    let place = concat3(":", decimal_text(symbol.row as u64 + 1).as_str(), "\n");
    output.append(
        concat9(
            "- ",
            symbol.kind.as_str(),
            " `",
            symbol.name.as_str(),
            "`",
            container.as_str(),
            " — ",
            symbol_path(symbol),
            place.as_str(),
        ).as_str(),
    );
}

/// The lines of the symbols, in order.
pub open spec fn symbol_lines(symbols: Seq<Symbol>) -> Seq<char>
    decreases symbols.len(),
{
    if symbols.len() == 0 {
        Seq::empty()
    } else {
        symbol_lines(symbols.drop_last()) + symbols.last().line()
    }
}

/// The symbols that match a query.
pub open spec fn matching(symbols: Seq<Symbol>, query: Seq<char>) -> Seq<Symbol> {
    symbols.filter(|symbol: Symbol| holds_every_word(symbol.haystack(), lowercase(query)))
}

/// The symbols from which those that are shown are taken: the ones that match, or all where none
/// does.
pub open spec fn displayed(symbols: Seq<Symbol>, query: Seq<char>) -> Seq<Symbol> {
    if matching(symbols, query).len() == 0 {
        symbols
    } else {
        matching(symbols, query)
    }
}

/// The number of symbols that are shown.
pub open spec fn shown_count(symbols: Seq<Symbol>, query: Seq<char>) -> nat {
    let count = displayed(symbols, query).len();
    if count < MAX_WORKSPACE_SYMBOL_RESULTS {
        count
    } else {
        MAX_WORKSPACE_SYMBOL_RESULTS as nat
    }
}

/// What is said of a search before its symbols are listed.
pub open spec fn heading(symbols: Seq<Symbol>, query: Seq<char>) -> Seq<char> {
    let total = decimal(symbols.len());
    let matched = decimal(matching(symbols, query).len());
    if matching(symbols, query).len() == 0 {
        "The language server returned "@ + total + " symbol(s) for `"@ + query
            + "`, but none matched the query after client-side filtering."@
    } else if matching(symbols, query).len() != symbols.len() {
        "Found "@ + matched + " symbol(s) matching `"@ + query
            + "` after client-side filtering ("@ + total + " returned by the language server)."@
    } else {
        "Found "@ + matched + " symbol(s) matching `"@ + query + "`."@
    }
}

/// What is said of symbols that are left out.
pub open spec fn omission(symbols: Seq<Symbol>, query: Seq<char>) -> Seq<char> {
    let shown = shown_count(symbols, query);
    let omitted = displayed(symbols, query).len() - shown;
    if omitted > 0 {
        " Showing first "@ + decimal(shown) + "; "@ + decimal(omitted as nat)
            + " omitted. Refine the query for narrower results."@
    } else {
        ""@
    }
}

/// What is said where the symbols that are shown are not those that the language server sent.
pub open spec fn explanation(symbols: Seq<Symbol>, query: Seq<char>) -> Seq<char> {
    if matching(symbols, query).len() != symbols.len() || displayed(symbols, query).len()
        > MAX_WORKSPACE_SYMBOL_RESULTS {
        " Some language servers return overly broad workspace symbol results, so this tool filters and caps output."@
    } else {
        ""@
    }
}

/// The answer to a search that found symbols.
pub open spec fn symbol_answer(symbols: Seq<Symbol>, query: Seq<char>) -> Seq<char> {
    heading(symbols, query) + omission(symbols, query) + explanation(symbols, query) + "\n"@
        + symbol_lines(displayed(symbols, query).take(shown_count(symbols, query) as int))
}

/// The indices of the symbols that match a query.
fn matching_indices(symbols: &Vec<Symbol>, query: &str) -> (r: Vec<usize>)
    ensures
        forall|k: int| 0 <= k < r@.len() ==> #[trigger] r@[k] < symbols@.len(),
        r@.len() <= symbols@.len(),
        r@.map_values(|i: usize| symbols@[i as int]) == matching(symbols@, query@),
{
    let lower = query.to_lowercase();
    let ghost accepts = |symbol: Symbol| holds_every_word(symbol.haystack(), lowercase(query@));
    let mut out: Vec<usize> = Vec::new();
    let mut i: usize = 0;
    proof {
        reveal(Seq::filter);
        assert(out@.map_values(|i: usize| symbols@[i as int]) =~= symbols@.take(0).filter(accepts));
    }
    while i < symbols.len()
        invariant
            i <= symbols.len(),
            out@.len() <= i,
            lower@ == lowercase(query@),
            accepts == (|symbol: Symbol| holds_every_word(symbol.haystack(), lowercase(query@))),
            forall|k: int| 0 <= k < out@.len() ==> #[trigger] out@[k] < symbols@.len(),
            out@.map_values(|i: usize| symbols@[i as int]) == symbols@.take(i as int).filter(accepts),
        decreases symbols.len() - i,
    {
        let ghost before = out@;
        proof {
            reveal(Seq::filter);
            assert(symbols@.take(i + 1).drop_last() =~= symbols@.take(i as int));
        }
        if symbol_matches_query(&symbols[i], lower.as_str()) {
            out.push(i);
            assert(out@.map_values(|i: usize| symbols@[i as int]) =~= before.map_values(
                |i: usize| symbols@[i as int],
            ).push(symbols@[i as int]));
        }
        i = i + 1;
    }
    assert(symbols@.take(symbols@.len() as int) =~= symbols@);
    out
}

/// Writes the lines of the symbols at the first `count` of `indices`.
fn write_symbols(symbols: &Vec<Symbol>, indices: &Vec<usize>, count: usize) -> (r: String)
    requires
        count <= indices@.len(),
        forall|k: int| 0 <= k < indices@.len() ==> #[trigger] indices@[k] < symbols@.len(),
    ensures
        r@ == symbol_lines(
            indices@.map_values(|i: usize| symbols@[i as int]).take(count as int),
        ),
{
    let ghost chosen = indices@.map_values(|i: usize| symbols@[i as int]);
    let mut out = String::new();
    let mut k: usize = 0;
    while k < count
        invariant
            k <= count <= indices@.len(),
            chosen == indices@.map_values(|i: usize| symbols@[i as int]),
            forall|k: int| 0 <= k < indices@.len() ==> #[trigger] indices@[k] < symbols@.len(),
            out@ == symbol_lines(chosen.take(k as int)),
        decreases count - k,
    {
        proof {
            assert(chosen.take(k + 1).drop_last() =~= chosen.take(k as int));
            assert(chosen.take(k + 1).last() == symbols@[indices@[k as int] as int]);
        }
        format_symbol(&mut out, &symbols[indices[k]]);
        k = k + 1;
    }
    out
}

/// Writes the answer to a search that found symbols.
pub fn write_symbol_answer(symbols: &Vec<Symbol>, query: &str) -> (r: String)
    ensures
        r@ == symbol_answer(symbols@, query@),
{
    let mut indices = matching_indices(symbols, query);
    let matched = indices.len();
    let total = symbols.len();
    let ghost found = matching(symbols@, query@);
    proof {
        assert(found.len() == matched);
    }
    if matched == 0 {
        let mut i: usize = 0;
        while i < total
            invariant
                i <= total == symbols@.len(),
                indices@.len() == i,
                forall|k: int| 0 <= k < i ==> #[trigger] indices@[k] == k,
            decreases total - i,
        {
            indices.push(i);
            i = i + 1;
        }
        assert(indices@.map_values(|i: usize| symbols@[i as int]) =~= symbols@);
    }
    assert(indices@.map_values(|i: usize| symbols@[i as int]) == displayed(symbols@, query@));
    assert(indices@.len() == displayed(symbols@, query@).len());
    let shown = if indices.len() < MAX_WORKSPACE_SYMBOL_RESULTS {
        indices.len()
    } else {
        MAX_WORKSPACE_SYMBOL_RESULTS
    };
    let omitted = indices.len() - shown;
    let total_text = decimal_text(total as u64);
    let matched_text = decimal_text(matched as u64);
    let mut out = if matched == 0 {
        concat5(
            "The language server returned ",
            total_text.as_str(),
            " symbol(s) for `",
            query,
            "`, but none matched the query after client-side filtering.",
        )
    } else if matched != total {
        concat7(
            "Found ",
            matched_text.as_str(),
            " symbol(s) matching `",
            query,
            "` after client-side filtering (",
            total_text.as_str(),
            " returned by the language server).",
        )
    } else {
        concat5("Found ", matched_text.as_str(), " symbol(s) matching `", query, "`.")
    };
    if omitted > 0 {
        out.append(
            concat5(
                " Showing first ",
                decimal_text(shown as u64).as_str(),
                "; ",
                decimal_text(omitted as u64).as_str(),
                " omitted. Refine the query for narrower results.",
            ).as_str(),
        );
    } else {
        out.append("");
    }
    if matched != total || omitted > 0 {
        out.append(
            " Some language servers return overly broad workspace symbol results, so this tool filters and caps output.",
        );
    } else {
        out.append("");
    }
    out.append("\n");
    out.append(write_symbols(symbols, &indices, shown).as_str());
    out
}

/// What the editor reports while the workspace is being searched.
pub enum SymbolSearchEvent {
    /// The agent asks for symbols.
    Requested,
    /// The language servers answered, or failed.
    Answered(Result<Vec<Symbol>, String>),
}

/// What is to be done next to search the workspace.
pub enum SymbolSearchAction {
    /// Send a query to the language servers.
    Query(String),
    Finish(Result<String, String>),
}

/// Searches the workspace, step by step.
pub fn workspace_symbol(query: &str, event: SymbolSearchEvent) -> (action: SymbolSearchAction)
    ensures
        ({
            let query = trimmed(query@);
            if query.len() == 0 {
                action matches SymbolSearchAction::Finish(Err(message)) && message@
                    == "`query` must not be empty. Provide a symbol name or substring to avoid returning the entire workspace symbol index."@
            } else {
                match event {
                    SymbolSearchEvent::Requested => action matches SymbolSearchAction::Query(q)
                        && q@ == query,
                    SymbolSearchEvent::Answered(Err(error)) => action matches SymbolSearchAction::Finish(
                        Err(message),
                    ) && message@ == "Workspace symbol search failed: "@ + error@,
                    SymbolSearchEvent::Answered(Ok(symbols)) => {
                        &&& action matches SymbolSearchAction::Finish(Ok(text))
                        &&& text@ == if symbols@.len() == 0 {
                            "No workspace symbols found matching `"@ + query + "`."@
                        } else {
                            symbol_answer(symbols@, query)
                        }
                    },
                }
            }
        }),
{
    let query = text_of(&trim(&chars_of(query)));
    if query.as_str().is_empty() {
        return SymbolSearchAction::Finish(
            Err(
                "`query` must not be empty. Provide a symbol name or substring to avoid returning the entire workspace symbol index.".to_string(),
            ),
        );
    }
    match event {
        SymbolSearchEvent::Requested => SymbolSearchAction::Query(query),
        SymbolSearchEvent::Answered(Err(error)) => SymbolSearchAction::Finish(
            Err(concat2("Workspace symbol search failed: ", error.as_str())),
        ),
        SymbolSearchEvent::Answered(Ok(symbols)) => SymbolSearchAction::Finish(
            Ok(
                if symbols.is_empty() {
                    concat3("No workspace symbols found matching `", query.as_str(), "`.")
                } else {
                    write_symbol_answer(&symbols, query.as_str())
                },
            ),
        ),
    }
}

/// What is shown of a search is capped, comes from the language server, and where any symbol
/// matches holds only symbols that match.
pub proof fn results_are_filtered_and_capped(symbols: Seq<Symbol>, query: Seq<char>)
    ensures
        shown_count(symbols, query) <= MAX_WORKSPACE_SYMBOL_RESULTS,
        shown_count(symbols, query) <= displayed(symbols, query).len() <= symbols.len(),
        symbols.len() > 0 ==> shown_count(symbols, query) > 0,
        forall|k: int|
            0 <= k < displayed(symbols, query).len() ==> symbols.contains(
                #[trigger] displayed(symbols, query)[k],
            ),
        (exists|i: int|
            0 <= i < symbols.len() && holds_every_word(
                (#[trigger] symbols[i]).haystack(),
                lowercase(query),
            )) ==> forall|k: int|
            0 <= k < displayed(symbols, query).len() ==> holds_every_word(
                (#[trigger] displayed(symbols, query)[k]).haystack(),
                lowercase(query),
            ),
{
    broadcast use vstd::seq_lib::group_filter_ensures;

    let accepts = |symbol: Symbol| holds_every_word(symbol.haystack(), lowercase(query));
    let found = matching(symbols, query);
    assert(found == symbols.filter(accepts));
    assert forall|k: int| 0 <= k < found.len() implies symbols.contains(#[trigger] found[k])
        && accepts(found[k]) by {
        symbols.lemma_filter_pred(accepts, k);
        symbols.lemma_filter_contains_rev(accepts, found[k]);
    }
    if exists|i: int|
        0 <= i < symbols.len() && holds_every_word((#[trigger] symbols[i]).haystack(), lowercase(query)) {
        let i = choose|i: int|
            0 <= i < symbols.len() && holds_every_word((#[trigger] symbols[i]).haystack(), lowercase(query));
        assert(accepts(symbols[i]));
        assert(symbols.filter(accepts).contains(symbols[i]));
    }
}

} // verus!
