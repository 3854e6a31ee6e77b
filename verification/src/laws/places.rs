//! Laws on places in files: symbols, rows and their display.

use vstd::prelude::*;

use crate::laws::search::{lengths_are_those_of_utf8, stands_in};
use crate::location::LocationDisplay;
use crate::search::{first_from_is_first, occurs_at};
use crate::snapshot::{joined, line_breaks, TextSnapshot};
use crate::symbol::{
    displayed_line, line_preview, ResolveAction, ResolveEvent, ResolvedSymbol, SymbolLocator,
};
use crate::text::decimal;
use vstd::utf8::encode_utf8;

verus! {

/// A symbol is located on the line that is named (0 counts as 1) at the first place at which its name
/// stands there; the column counts the bytes before it. It is located wherever the line exists and
/// holds the name, and otherwise what is missing is told.
pub proof fn symbols_are_located_where_they_stand(
    locator: &SymbolLocator,
    snapshot: &TextSnapshot,
    r: Result<ResolvedSymbol, String>,
)
    requires
        call_ensures(SymbolLocator::locate, (locator, snapshot), r),
    ensures
        ({
            let lines = snapshot.lines();
            let row = if locator.line == 0 {
                0int
            } else {
                locator.line - 1
            };
            &&& (row >= lines.len() ==> (r matches Err(e) && e@ == "Line "@ + decimal(
                locator.line as nat,
            ) + " is beyond the end of '"@ + locator.file_path@ + "' (file has "@ + decimal(lines.len())
                + " lines)"@))
            &&& (row < lines.len() ==> (r is Ok <==> stands_in(lines[row], locator.symbol_name@)))
            &&& (row < lines.len() ==> (r matches Err(e) ==> e@ == "Could not find symbol '"@
                + locator.symbol_name@ + "' on line "@ + decimal(locator.line as nat) + " of '"@
                + locator.file_path@ + "'. Line content: "@ + line_preview(lines[row])))
            &&& (r matches Ok(symbol) ==> {
                &&& symbol.row == row
                &&& row < lines.len()
                &&& (symbol.truncated <==> encode_utf8(lines[row]).len() > 200)
                &&& symbol.line_text@ == displayed_line(lines[row])
                &&& exists|before: Seq<char>, behind: Seq<char>|
                    {
                        &&& lines[row] == #[trigger] (before + locator.symbol_name@ + behind)
                        &&& symbol.column == encode_utf8(before).len()
                    }
                &&& (forall|before: Seq<char>, behind: Seq<char>|
                    lines[row] == #[trigger] (before + locator.symbol_name@ + behind)
                        ==> symbol.column <= encode_utf8(before).len())
            })
        }),
{
    let lines = snapshot.lines();
    let row = crate::symbol::row_of_line(locator.line);
    if row < lines.len() {
        let line = lines[row];
        let name = locator.symbol_name@;
        first_from_is_first(line, name, 0);
        crate::laws::search::occurring_is_standing(line, name);
        lengths_are_those_of_utf8(line);
        if let Some(i) = crate::search::first_from(line, name, 0) {
            assert(occurs_at(line, name, i));
            let before = line.take(i);
            let behind = line.skip(i + name.len());
            assert(line.subrange(i, i + name.len()) == name);
            assert(line =~= before + line.subrange(i, i + name.len()) + behind);
            lengths_are_those_of_utf8(before);
            assert forall|head: Seq<char>, tail: Seq<char>|
                line == #[trigger] (head + name + tail) implies crate::search::utf8_len(before)
                <= encode_utf8(head).len() by {
                let j = head.len() as int;
                assert(line.subrange(j, j + name.len()) =~= name);
                assert(occurs_at(line, name, j));
                lengths_are_those_of_utf8(head);
                crate::search::utf8_len_prefix(head, i);
                assert(head.take(i) =~= before);
            }
        }
    }
}

/// A symbol is resolved by finding its path, opening and reading its buffer, and locating it there.
/// What goes wrong is told.
pub proof fn symbols_are_resolved_in_their_file(
    locator: &SymbolLocator,
    event: ResolveEvent,
    action: ResolveAction,
)
    requires
        call_ensures(SymbolLocator::resolve, (locator, event), action),
    ensures
        event matches ResolveEvent::PathSearched { found: true } ==> action is OpenBuffer,
        event matches ResolveEvent::PathSearched { found: false } ==> (
        action matches ResolveAction::Finish(Err(e)) && e@ == "Could not find path '"@
            + locator.file_path@ + "' in project"@),
        event matches ResolveEvent::Opened(Ok(_)) ==> action is AcquireAndRead,
        event matches ResolveEvent::Opened(Err(error)) ==> (action matches ResolveAction::Finish(Err(e))
            && e@ == "Failed to open '"@ + locator.file_path@ + "': "@ + error@),
        event matches ResolveEvent::Read(snapshot) ==> (action matches ResolveAction::Finish(r)
            && locator.locates(snapshot.lines(), r)),
{
}

/// A place is displayed with its path, its lines counted from 1, and its first line.
pub proof fn places_are_displayed(
    path: Option<String>,
    snapshot: &TextSnapshot,
    start_row: u32,
    end_row: u32,
    r: LocationDisplay,
)
    requires
        call_ensures(LocationDisplay::from_location, (path, snapshot, start_row, end_row), r),
    ensures
        r.path@ == (if path is Some {
            (path->0)@
        } else {
            "<untitled>"@
        }),
        r.start_line == start_row + 1,
        r.end_line == end_row + 1,
        r.snippet@ == displayed_line(snapshot.lines()[start_row as int]),
        r.truncated <==> encode_utf8(snapshot.lines()[start_row as int]).len() > 200,
{
    lengths_are_those_of_utf8(snapshot.lines()[start_row as int]);
}

/// A snapshot holds the text of which it was made, by rows: each row is what stands between two line
/// breaks, and none holds a line break.
pub proof fn snapshots_hold_the_text(text: &str, r: TextSnapshot)
    requires
        call_ensures(TextSnapshot::new, (text,), r),
    ensures
        joined(r.lines()) == text@,
        r.lines().len() >= 1,
        forall|i: int, c: int|
            0 <= i < r.lines().len() && 0 <= c < r.lines()[i].len() ==> #[trigger] r.lines()[i][c]
                != '\n',
{
    crate::snapshot::rows_are_the_text(text@);
}

/// Rows are joined with a line break between each two.
pub proof fn rows_are_joined_by_line_breaks(rows: Seq<Seq<char>>, row: Seq<char>)
    ensures
        joined(seq![row]) == row,
        rows.len() > 0 ==> joined(rows.push(row)) == joined(rows) + seq!['\n'] + row,
{
    if rows.len() > 0 {
        assert(rows.push(row).drop_last() =~= rows);
        assert(joined(rows).push('\n') =~= joined(rows) + seq!['\n']);
    }
}

/// The rows that are taken out of a buffer are those of the numbers, joined again.
pub proof fn rows_are_taken_out(snapshot: &TextSnapshot, start: u32, end: u32, r: String)
    requires
        start <= end < snapshot.lines().len(),
        call_ensures(TextSnapshot::rows_text, (snapshot, start, end), r),
    ensures
        r@ == joined(snapshot.lines().subrange(start as int, end + 1)),
        start == end ==> r@ == snapshot.lines()[start as int],
{
    if start == end {
        assert(snapshot.lines().subrange(start as int, end + 1) =~= seq![
            snapshot.lines()[start as int],
        ]);
    }
}

/// Line breaks are counted one by one.
pub proof fn line_breaks_are_counted(text: Seq<char>)
    ensures
        line_breaks(text) == text.filter(|c: char| c == '\n').len(),
    decreases text.len(),
{
    reveal(Seq::filter);
    if text.len() > 0 {
        line_breaks_are_counted(text.drop_last());
    }
}

} // verus!
