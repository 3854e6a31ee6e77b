//! Laws on searching the workspace for symbols.

use vstd::prelude::*;

use crate::laws::search::{
    is_core_of, is_solid, is_word_of, occurring_is_standing, stands_in, trimmed_is_core,
    words_are_sought,
};
use crate::search::{holds_every_word, occurs, occurs_at};
use crate::text::{decimal, lowercase};
use crate::workspace_symbols::{
    displayed, format_symbol, matching, shown_count, symbol_lines, symbol_matches_query,
    workspace_symbol, Symbol, SymbolLocation, SymbolSearchAction, SymbolSearchEvent,
};

verus! {

/// The path at which a symbol is defined, in the project or outside of it.
pub open spec fn path_of(symbol: Symbol) -> Seq<char> {
    match symbol.location {
        SymbolLocation::InProject { path } => path@,
        SymbolLocation::OutsideProject { abs_path } => abs_path@,
    }
}

/// A symbol matches a query in lower case: every word of it stands in the name of the symbol, in
/// that of its container or in its path, in lower case too.
pub open spec fn matches_words(symbol: Symbol, query: Seq<char>) -> bool {
    forall|word: Seq<char>| #[trigger]
        is_word_of(word, query) ==> {
            ||| stands_in(lowercase(symbol.name@), word)
            ||| symbol.container_name is Some && stands_in(
                lowercase((symbol.container_name->0)@),
                word,
            )
            ||| stands_in(lowercase(path_of(symbol)), word)
        }
}

/// A word does not reach across a space.
proof fn words_keep_to_one_side(left: Seq<char>, right: Seq<char>, word: Seq<char>)
    requires
        word.len() > 0,
        is_solid(word),
    ensures
        stands_in(left + " "@ + right, word) <==> stands_in(left, word) || stands_in(right, word),
{
    reveal_strlit(" ");
    let whole = left + " "@ + right;
    occurring_is_standing(whole, word);
    occurring_is_standing(left, word);
    occurring_is_standing(right, word);
    if occurs(whole, word) {
        let i = choose|i: int| #[trigger] occurs_at(whole, word, i);
        let j = i + word.len();
        assert(whole.subrange(i, j) == word);
        if j <= left.len() {
            assert(left.subrange(i, j) =~= word) by {
                assert forall|k: int| 0 <= k < word.len() implies left.subrange(i, j)[k] == word[k] by {
                    assert(whole.subrange(i, j)[k] == left[i + k]);
                }
            }
            assert(occurs_at(left, word, i));
        } else if i > left.len() {
            let m = i - left.len() - 1;
            assert(right.subrange(m, m + word.len()) =~= word) by {
                assert forall|k: int| 0 <= k < word.len() implies right.subrange(m, m + word.len())[k]
                    == word[k] by {
                    assert(whole.subrange(i, j)[k] == right[m + k]);
                }
            }
            assert(occurs_at(right, word, m));
        } else {
            assert(whole.subrange(i, j)[left.len() - i] == ' ');
            assert(!crate::text::is_space(word[left.len() - i]));
        }
    }
    if occurs(left, word) {
        let i = choose|i: int| #[trigger] occurs_at(left, word, i);
        assert(left.subrange(i, i + word.len()) == word);
        assert(whole.subrange(i, i + word.len()) =~= left.subrange(i, i + word.len()));
        assert(occurs_at(whole, word, i));
    }
    if occurs(right, word) {
        let i = choose|i: int| #[trigger] occurs_at(right, word, i);
        let m = i + left.len() + 1;
        assert(right.subrange(i, i + word.len()) == word);
        assert(whole.subrange(m, m + word.len()) =~= right.subrange(i, i + word.len()));
        assert(occurs_at(whole, word, m));
    }
}

proof fn matching_is_by_words(symbol: Symbol, query: Seq<char>)
    ensures
        holds_every_word(symbol.haystack(), query) <==> matches_words(symbol, query),
{
    words_are_sought(symbol.haystack(), query);
    let name = lowercase(symbol.name@);
    let path = lowercase(path_of(symbol));
    reveal_strlit("");
    assert forall|word: Seq<char>| #[trigger] is_word_of(word, query) implies stands_in(
        symbol.haystack(),
        word,
    ) == ({
        ||| stands_in(name, word)
        ||| symbol.container_name is Some && stands_in(lowercase((symbol.container_name->0)@), word)
        ||| stands_in(path, word)
    }) by {
        match symbol.container_name {
            Some(container) => {
                let held = lowercase(container@);
                assert(symbol.haystack() =~= (name + " "@ + held) + " "@ + path);
                words_keep_to_one_side(name + " "@ + held, path, word);
                words_keep_to_one_side(name, held, word);
            },
            None => {
                assert(symbol.haystack() =~= name + " "@ + path);
                words_keep_to_one_side(name, path, word);
            },
        }
    }
}

/// A symbol matches exactly where every word of the query stands in its name, its container or its
/// path.
pub proof fn symbols_match_by_words(symbol: &Symbol, query: &str, r: bool)
    requires
        call_ensures(symbol_matches_query, (symbol, query), r),
    ensures
        r <==> matches_words(*symbol, query@),
{
    matching_is_by_words(*symbol, query@);
}

/// What an agent is told of a symbol: kind, name, container, path and line.
pub open spec fn told_symbol(symbol: Symbol) -> Seq<char> {
    "- "@ + symbol.kind@ + " `"@ + symbol.name@ + "`"@ + (match symbol.container_name {
        Some(container) => " ("@ + container@ + ")"@,
        None => Seq::empty(),
    }) + " — "@ + path_of(symbol) + ":"@ + decimal((symbol.row + 1) as nat) + "\n"@
}

proof fn line_is_told(symbol: Symbol)
    ensures
        symbol.line() == told_symbol(symbol),
{
    reveal_strlit("");
    assert(symbol.line() =~= told_symbol(symbol));
}

/// A symbol is written below what is there already.
pub proof fn symbols_are_written_below(symbol: &Symbol)
    ensures
        forall|output: &mut String, r: ()| #[trigger]
            call_ensures(format_symbol, (output, symbol), r) ==> final(output)@ == output@
                + told_symbol(*symbol),
{
    line_is_told(*symbol);
}

/// What an agent is told of the symbols, one by one.
pub open spec fn told_symbols(symbols: Seq<Symbol>) -> Seq<Seq<char>> {
    Seq::new(symbols.len(), |k: int| told_symbol(symbols[k]))
}

proof fn lines_are_told(symbols: Seq<Symbol>)
    ensures
        symbol_lines(symbols) == told_symbols(symbols).flatten(),
    decreases symbols.len(),
{
    if symbols.len() > 0 {
        let rest = symbols.drop_last();
        lines_are_told(rest);
        line_is_told(symbols.last());
        told_symbols(rest).lemma_flatten_push(told_symbol(symbols.last()));
        assert(told_symbols(symbols) =~= told_symbols(rest).push(told_symbol(symbols.last())));
    }
}

/// The symbols that match a query, whose case does not matter, in order.
pub open spec fn matches_of(symbols: Seq<Symbol>, query: Seq<char>) -> Seq<Symbol> {
    symbols.filter(|symbol: Symbol| matches_words(symbol, lowercase(query)))
}

/// The symbols that are candidates to be shown: those that match, or all where none does.
pub open spec fn candidates(symbols: Seq<Symbol>, query: Seq<char>) -> Seq<Symbol> {
    if matches_of(symbols, query).len() > 0 {
        matches_of(symbols, query)
    } else {
        symbols
    }
}

/// Of the candidates, the first hundred are shown.
pub open spec fn shown(symbols: Seq<Symbol>, query: Seq<char>) -> Seq<Symbol> {
    if candidates(symbols, query).len() <= 100 {
        candidates(symbols, query)
    } else {
        candidates(symbols, query).take(100)
    }
}

proof fn candidates_are_displayed(symbols: Seq<Symbol>, query: Seq<char>)
    ensures
        matches_of(symbols, query) == matching(symbols, query),
        candidates(symbols, query) == displayed(symbols, query),
        shown(symbols, query) == displayed(symbols, query).take(
            shown_count(symbols, query) as int,
        ),
{
    let by_words = |symbol: Symbol| matches_words(symbol, lowercase(query));
    let by_text = |symbol: Symbol| holds_every_word(symbol.haystack(), lowercase(query));
    assert forall|symbol: Symbol| #[trigger] by_words(symbol) == by_text(symbol) by {
        matching_is_by_words(symbol, lowercase(query));
    }
    assert(by_words =~= by_text);
    assert(symbols.filter(by_words) == symbols.filter(by_text));
    let all = candidates(symbols, query);
    assert(all.take(all.len() as int) =~= all);
}

/// What is said before the symbols are listed: how many there are, and where need be how many the
/// language server sent, how many are left out, and why.
pub open spec fn told_count(symbols: Seq<Symbol>, query: Seq<char>) -> Seq<char> {
    let matched = matches_of(symbols, query).len();
    let total = symbols.len();
    let hidden = candidates(symbols, query).len() - shown(symbols, query).len();
    (if matched == 0 {
        "The language server returned "@ + decimal(total) + " symbol(s) for `"@ + query
            + "`, but none matched the query after client-side filtering."@
    } else if matched < total {
        "Found "@ + decimal(matched) + " symbol(s) matching `"@ + query
            + "` after client-side filtering ("@ + decimal(total)
            + " returned by the language server)."@
    } else {
        "Found "@ + decimal(total) + " symbol(s) matching `"@ + query + "`."@
    }) + (if hidden > 0 {
        " Showing first 100; "@ + decimal(hidden as nat)
            + " omitted. Refine the query for narrower results."@
    } else {
        Seq::empty()
    }) + (if matched < total || hidden > 0 {
        " Some language servers return overly broad workspace symbol results, so this tool filters and caps output."@
    } else {
        Seq::empty()
    })
}

proof fn hundred_in_decimal()
    ensures
        decimal(100) == seq!['1', '0', '0'],
{
    reveal_with_fuel(decimal, 4);
    assert(decimal(100) =~= seq!['1', '0', '0']);
}

/// The symbols that match the query are told, in the order of the language server and every one once,
/// up to a hundred of them; where none matches, those that the server sent. How many there are is
/// said before.
pub proof fn matching_symbols_are_told(
    query: &str,
    sought: Seq<char>,
    symbols: Vec<Symbol>,
    action: SymbolSearchAction,
)
    requires
        is_core_of(sought, query@),
        sought.len() > 0,
        call_ensures(workspace_symbol, (query, SymbolSearchEvent::Answered(Ok(symbols))), action),
    ensures
        action matches SymbolSearchAction::Finish(Ok(text)) && text@ == if symbols@.len() > 0 {
            told_count(symbols@, sought) + "\n"@ + told_symbols(shown(symbols@, sought)).flatten()
        } else {
            "No workspace symbols found matching `"@ + sought + "`."@
        },
{
    trimmed_is_core(query@);
    let all = symbols@;
    if all.len() > 0 {
        candidates_are_displayed(all, sought);
        lines_are_told(shown(all, sought));
        reveal_strlit("");
        broadcast use vstd::seq_lib::group_filter_ensures;

        all.lemma_filter_len(|symbol: Symbol| matches_words(symbol, lowercase(sought)));
        let hidden = candidates(all, sought).len() - shown(all, sought).len();
        if hidden > 0 {
            hundred_in_decimal();
            reveal_strlit(" Showing first 100; ");
            reveal_strlit(" Showing first ");
            reveal_strlit("; ");
            assert(" Showing first "@ + decimal(100) + "; "@ =~= " Showing first 100; "@);
        }
        assert(crate::workspace_symbols::heading(all, sought) + crate::workspace_symbols::omission(
            all,
            sought,
        ) + crate::workspace_symbols::explanation(all, sought) =~= told_count(all, sought));
    }
}

/// A query without white space around it goes to the language servers; one that is nothing but white
/// space is refused. What goes wrong is told.
pub proof fn queries_are_sent(
    query: &str,
    sought: Seq<char>,
    event: SymbolSearchEvent,
    action: SymbolSearchAction,
)
    requires
        is_core_of(sought, query@),
        call_ensures(workspace_symbol, (query, event), action),
    ensures
        sought.len() == 0 ==> (action matches SymbolSearchAction::Finish(Err(message)) && message@
            == "`query` must not be empty. Provide a symbol name or substring to avoid returning the entire workspace symbol index."@),
        sought.len() > 0 && event is Requested ==> (action matches SymbolSearchAction::Query(q) && q@
            == sought),
        sought.len() > 0 ==> (event matches SymbolSearchEvent::Answered(Err(error)) ==> (
        action matches SymbolSearchAction::Finish(Err(message)) && message@
            == "Workspace symbol search failed: "@ + error@)),
{
    trimmed_is_core(query@);
}

} // verus!
