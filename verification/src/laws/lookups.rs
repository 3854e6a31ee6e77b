//! Laws on looking something up.

use vstd::prelude::*;
use vstd::seq_lib::*;

use crate::location::{list_locations, location_list, LocationDisplay};
use crate::lookups::{
    find_references, go_to_definition, hover, with_blocks, with_hovers, Hover, HoverBlock,
    HoverBlockKind, HoverEvent, LookupAction, LookupEvent,
};
use crate::symbol::SymbolLocator;
use crate::text::decimal;

verus! {

/// What an agent is told of a place: the path, the lines and the snippet.
pub open spec fn told_place(place: LocationDisplay) -> Seq<char> {
    "\n## "@ + place.path@ + "#L"@ + decimal(place.start_line as nat) + (if place.start_line
        == place.end_line {
        Seq::empty()
    } else {
        "-"@ + decimal(place.end_line as nat)
    }) + (if place.truncated {
        " (truncated)"@
    } else {
        Seq::empty()
    }) + "\n```\n"@ + place.snippet@ + "\n```\n"@
}

/// What an agent is told of the places, one by one.
pub open spec fn told_places(places: Seq<LocationDisplay>) -> Seq<Seq<char>> {
    Seq::new(places.len(), |k: int| told_place(places[k]))
}

proof fn place_is_told(place: LocationDisplay)
    ensures
        "\n## "@ + place.display() + "\n"@ == told_place(place),
{
    reveal_strlit("");
    reveal_strlit("\n");
    reveal_strlit("\n```");
    reveal_strlit("\n```\n");
    assert("\n```"@ + "\n"@ =~= "\n```\n"@);
    assert(""@ =~= Seq::<char>::empty());
    assert("\n## "@ + place.display() + "\n"@ =~= told_place(place));
}

proof fn list_is_told(places: Seq<LocationDisplay>)
    ensures
        location_list(places) == told_places(places).flatten(),
    decreases places.len(),
{
    if places.len() > 0 {
        let rest = places.drop_last();
        list_is_told(rest);
        place_is_told(places.last());
        told_places(rest).lemma_flatten_push(told_place(places.last()));
        assert(told_places(places) =~= told_places(rest).push(told_place(places.last())));
    }
}

/// A list of places tells of every place, once and in order, and of nothing else.
pub proof fn every_place_is_listed(places: &Vec<LocationDisplay>, list: String)
    requires
        call_ensures(list_locations, (places,), list),
    ensures
        list@ == told_places(places@).flatten(),
{
    list_is_told(places@);
}

/// The list of two groups of places is the list of the first and then that of the second.
pub proof fn lists_of_places_add_up(
    first: &Vec<LocationDisplay>,
    second: &Vec<LocationDisplay>,
    both: &Vec<LocationDisplay>,
    of_first: String,
    of_second: String,
    of_both: String,
)
    requires
        both@ == first@ + second@,
        call_ensures(list_locations, (first,), of_first),
        call_ensures(list_locations, (second,), of_second),
        call_ensures(list_locations, (both,), of_both),
    ensures
        of_both@ == of_first@ + of_second@,
{
    list_is_told(first@);
    list_is_told(second@);
    list_is_told(both@);
    assert(told_places(both@) =~= told_places(first@) + told_places(second@));
    lemma_flatten_concat(told_places(first@), told_places(second@));
}

/// The references that a language server finds are counted and told, every one of them, in the
/// order of the server. Where there is none, that is said.
pub proof fn every_reference_is_told(
    symbol: &SymbolLocator,
    references: Vec<LocationDisplay>,
    action: LookupAction,
)
    requires
        call_ensures(
            find_references,
            (symbol, LookupEvent::Answered(Ok(Some(references)))),
            action,
        ),
    ensures
        action matches LookupAction::Finish(Ok(text)) && text@ == if references@.len() > 0 {
            "Found "@ + decimal(references@.len()) + " references to `"@ + symbol.symbol_name@
                + "`:\n"@ + told_places(references@).flatten()
        } else {
            "No references found for '"@ + symbol.symbol_name@ + "'."@
        },
{
    list_is_told(references@);
}

/// The definitions that a language server finds are told, every one of them, in the order of the
/// server, and counted where there are several. Where there is none, that is said.
pub proof fn every_definition_is_told(
    symbol: &SymbolLocator,
    definitions: Vec<LocationDisplay>,
    action: LookupAction,
)
    requires
        call_ensures(
            go_to_definition,
            (symbol, LookupEvent::Answered(Ok(Some(definitions)))),
            action,
        ),
    ensures
        action matches LookupAction::Finish(Ok(text)) && text@ == if definitions@.len() > 1 {
            "Found "@ + decimal(definitions@.len()) + " definitions of `"@ + symbol.symbol_name@
                + "`:\n"@ + told_places(definitions@).flatten()
        } else if definitions@.len() == 1 {
            "Definition of `"@ + symbol.symbol_name@ + "`:\n"@ + told_place(definitions@[0])
        } else {
            "No definition found for '"@ + symbol.symbol_name@ + "'."@
        },
{
    list_is_told(definitions@);
    if definitions@.len() == 1 {
        told_places(definitions@).lemma_flatten_one_element();
    }
}

/// A lookup goes on while it can: a symbol that was resolved has its server checked for, and a
/// server that is running is asked. What goes wrong is told, with the reason or the file.
pub proof fn failed_lookups_are_told(
    symbol: &SymbolLocator,
    event: LookupEvent,
    references: LookupAction,
    definitions: LookupAction,
)
    requires
        call_ensures(find_references, (symbol, event), references),
        call_ensures(go_to_definition, (symbol, event), definitions),
    ensures
        event matches LookupEvent::Resolved(Ok(_)) ==> references is CheckServer && definitions is CheckServer,
        event matches LookupEvent::ServerChecked(true) ==> references is Query && definitions is Query,
        event matches LookupEvent::Resolved(Err(error)) ==> {
            &&& references matches LookupAction::Finish(Err(e)) && e@ == error@
            &&& definitions matches LookupAction::Finish(Err(e)) && e@ == error@
        },
        event matches LookupEvent::ServerChecked(false) ==> {
            &&& references matches LookupAction::Finish(Ok(a))
            &&& definitions matches LookupAction::Finish(Ok(b))
            &&& a@ == "No language server is running for `"@ + symbol.file_path@
                + "`. Enable or install a language server in Zed before relying on LSP-backed lookups."@
            &&& b@ == a@
        },
        event matches LookupEvent::Answered(Err(error)) ==> {
            &&& references matches LookupAction::Finish(Err(e)) && e@ == "Find references failed: "@
                + error@
            &&& definitions matches LookupAction::Finish(Err(e)) && e@ == "Go to definition failed: "@
                + error@
        },
        event matches LookupEvent::Answered(Ok(None)) ==> {
            &&& references matches LookupAction::Finish(Ok(text)) && text@
                == "No language server capable of finding references is available for `"@
                + symbol.file_path@ + "`."@
            &&& definitions matches LookupAction::Finish(Ok(text)) && text@
                == "No language server capable of resolving definitions is available for `"@
                + symbol.file_path@ + "`."@
        },
{
}

/// What an agent is told of a block of hover information: the text as it is, or code between fences
/// that stand on lines of their own. Below an empty line, it takes whole lines.
pub open spec fn told_block(block: HoverBlock) -> Seq<char> {
    let shown = match block.kind {
        HoverBlockKind::Code { language } => "```"@ + language@ + "\n"@ + block.text@ + (
        if block.text@.len() > 0 && block.text@.last() == '\n' {
            Seq::empty()
        } else {
            seq!['\n']
        }) + "```"@,
        _ => block.text@,
    };
    seq!['\n'] + shown + (if shown.len() == 0 || shown.last() == '\n' {
        Seq::empty()
    } else {
        seq!['\n']
    })
}

/// What an agent is told of the blocks, one by one.
pub open spec fn told_blocks(blocks: Seq<HoverBlock>) -> Seq<Seq<char>> {
    Seq::new(blocks.len(), |k: int| told_block(blocks[k]))
}

/// The blocks of the hovers that are not empty, in order.
pub open spec fn blocks_of(hovers: Seq<Hover>) -> Seq<HoverBlock> {
    hovers.filter(|h: Hover| !h.is_empty).map_values(|h: Hover| h.contents@).flatten()
}

proof fn blocks_are_told(output: Seq<char>, blocks: Seq<HoverBlock>)
    ensures
        with_blocks(output, blocks) == output + told_blocks(blocks).flatten(),
    decreases blocks.len(),
{
    if blocks.len() > 0 {
        let rest = blocks.drop_last();
        let last = blocks.last();
        blocks_are_told(output, rest);
        told_blocks(rest).lemma_flatten_push(told_block(last));
        assert(told_blocks(blocks) =~= told_blocks(rest).push(told_block(last)));
        reveal_strlit("\n");
        reveal_strlit("```");
        assert("\n"@ =~= seq!['\n']);
        let shown = crate::lookups::block_text(last);
        let before = with_blocks(output, rest);
        let joined = before + "\n"@ + shown;
        if shown.len() > 0 {
            assert(joined.last() == shown.last());
        } else {
            assert(joined.last() == '\n');
        }
        assert(with_blocks(output, blocks) =~= before + told_block(last));
        assert(with_blocks(output, blocks) =~= output + (told_blocks(rest).flatten() + told_block(
            last,
        )));
    } else {
        assert(told_blocks(blocks) =~= Seq::empty());
        assert(output + Seq::<char>::empty() =~= output);
    }
}

proof fn hovers_are_told(output: Seq<char>, hovers: Seq<Hover>)
    ensures
        with_hovers(output, hovers) == output + told_blocks(blocks_of(hovers)).flatten(),
    decreases hovers.len(),
{
    reveal(Seq::filter);
    let kept = |h: Hover| !h.is_empty;
    let contents = |h: Hover| h.contents@;
    if hovers.len() > 0 {
        let rest = hovers.drop_last();
        let last = hovers.last();
        hovers_are_told(output, rest);
        if !last.is_empty {
            let before = with_hovers(output, rest);
            blocks_are_told(before, last.contents@);
            assert(hovers.filter(kept) == rest.filter(kept).push(last));
            assert(hovers.filter(kept).map_values(contents) =~= rest.filter(kept).map_values(
                contents,
            ).push(last.contents@));
            rest.filter(kept).map_values(contents).lemma_flatten_push(last.contents@);
            assert(blocks_of(hovers) == blocks_of(rest) + last.contents@);
            assert(told_blocks(blocks_of(hovers)) =~= told_blocks(blocks_of(rest)) + told_blocks(
                last.contents@,
            ));
            lemma_flatten_concat(told_blocks(blocks_of(rest)), told_blocks(last.contents@));
            assert(with_hovers(output, hovers) =~= output + told_blocks(
                blocks_of(hovers),
            ).flatten());
        }
    } else {
        assert(hovers.filter(kept).map_values(contents) =~= Seq::empty());
        assert(told_blocks(blocks_of(hovers)) =~= Seq::empty());
        assert(output + Seq::<char>::empty() =~= output);
    }
}

/// The hover information of all language servers is told, block by block, in their order; only a
/// hover that is empty is left out. Where every one is, that is said.
pub proof fn every_hover_is_told(symbol: &SymbolLocator, hovers: Vec<Hover>, action: LookupAction)
    requires
        call_ensures(hover, (symbol, HoverEvent::Answered(Some(hovers))), action),
    ensures
        action matches LookupAction::Finish(Ok(text)) && text@ == if exists|i: int|
            0 <= i < hovers@.len() && !(#[trigger] hovers@[i]).is_empty {
            "Hover info for `"@ + symbol.symbol_name@ + "`:\n"@ + told_blocks(
                blocks_of(hovers@),
            ).flatten()
        } else {
            "No hover information available for '"@ + symbol.symbol_name@ + "' at "@
                + symbol.file_path@ + ":"@ + decimal(symbol.line as nat) + "."@
        },
{
    hovers_are_told("Hover info for `"@ + symbol.symbol_name@ + "`:\n"@, hovers@);
}

/// What a further language server has to say comes below what is there already, which stays.
pub proof fn hovers_add_up(
    symbol: &SymbolLocator,
    fewer: Vec<Hover>,
    more: Vec<Hover>,
    added: Hover,
    i: int,
    before: LookupAction,
    after: LookupAction,
)
    requires
        more@ == fewer@.push(added),
        0 <= i < fewer@.len() && !fewer@[i].is_empty,
        call_ensures(hover, (symbol, HoverEvent::Answered(Some(fewer))), before),
        call_ensures(hover, (symbol, HoverEvent::Answered(Some(more))), after),
    ensures
        before matches LookupAction::Finish(Ok(short)) && after matches LookupAction::Finish(Ok(long))
            && long@ == short@ + if added.is_empty {
            Seq::empty()
        } else {
            told_blocks(added.contents@).flatten()
        },
{
    let heading = "Hover info for `"@ + symbol.symbol_name@ + "`:\n"@;
    assert(more@[i] == fewer@[i]);
    assert(more@.drop_last() =~= fewer@);
    let text = with_hovers(heading, fewer@);
    blocks_are_told(text, added.contents@);
    assert(text + Seq::<char>::empty() =~= text);
}

/// A hover request that comes to nothing is answered like one without information, and what goes
/// wrong before is told.
pub proof fn failed_hovers_are_told(symbol: &SymbolLocator, event: HoverEvent, action: LookupAction)
    requires
        call_ensures(hover, (symbol, event), action),
    ensures
        event matches HoverEvent::Resolved(Ok(_)) ==> action is CheckServer,
        event matches HoverEvent::Resolved(Err(error)) ==> action matches LookupAction::Finish(Err(e))
            && e@ == error@,
        event matches HoverEvent::ServerChecked(true) ==> action is Query,
        event matches HoverEvent::ServerChecked(false) ==> action matches LookupAction::Finish(Ok(text))
            && text@ == "No language server is running for `"@ + symbol.file_path@
            + "`. Enable or install a language server in Zed before requesting hover info."@,
        event matches HoverEvent::Answered(None) ==> action matches LookupAction::Finish(Ok(text))
            && text@ == "No hover information available for '"@ + symbol.symbol_name@ + "' at "@
            + symbol.file_path@ + ":"@ + decimal(symbol.line as nat) + "."@,
{
}

} // verus!
