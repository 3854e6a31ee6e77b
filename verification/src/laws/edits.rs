//! Laws on operations that change files.

use vstd::prelude::*;
use std::collections::HashMap;

use crate::changes::{
    format_document, rename_symbol, FormatAction, FormatEvent, FormattedBuffer, RenameAction,
    RenameEvent,
};
use crate::code_actions::{
    apply_code_action, get_code_actions, number_actions, numbered_list, ApplyAction, ApplyEvent,
    CodeAction, CodeActionsAction, CodeActionsEvent, PendingCodeActions,
};
use crate::edits::{
    build_diffs_from_touched_buffers, listing_order, path_list,
    snapshot_open_buffer_texts, texts_by_id, EditDiff, EditOperationOutput, OpenBufferText,
    TouchedBuffer, TouchedBuffers,
};
use crate::symbol::SymbolLocator;
use crate::text::decimal;

verus! {

proof fn latest_text(buffers: Seq<OpenBufferText>, i: int)
    requires
        0 <= i < buffers.len(),
        forall|j: int| i < j < buffers.len() ==> (#[trigger] buffers[j]).id != buffers[i].id,
    ensures
        texts_by_id(buffers).contains_pair(buffers[i].id, buffers[i].text),
    decreases buffers.len(),
{
    if i < buffers.len() - 1 {
        let rest = buffers.drop_last();
        assert forall|j: int| i < j < rest.len() implies (#[trigger] rest[j]).id != rest[i].id by {
            assert(rest[j] == buffers[j]);
        }
        latest_text(rest, i);
        assert(buffers[buffers.len() - 1].id != buffers[i].id);
    }
}

proof fn only_open_texts(buffers: Seq<OpenBufferText>, id: u64)
    ensures
        texts_by_id(buffers).contains_key(id) ==> exists|i: int|
            0 <= i < buffers.len() && (#[trigger] buffers[i]).id == id,
    decreases buffers.len(),
{
    if buffers.len() > 0 {
        let rest = buffers.drop_last();
        only_open_texts(rest, id);
        if buffers.last().id == id {
            assert(buffers[buffers.len() - 1].id == id);
        } else if texts_by_id(rest).contains_key(id) {
            let i = choose|i: int| 0 <= i < rest.len() && (#[trigger] rest[i]).id == id;
            assert(buffers[i].id == id);
        }
    }
}

/// The text of every open buffer is remembered under its id, and nothing else is.
pub proof fn open_texts_are_remembered(buffers: Vec<OpenBufferText>, texts: HashMap<u64, String>)
    requires
        call_ensures(snapshot_open_buffer_texts, (buffers,), texts),
    ensures
        forall|i: int|
            0 <= i < buffers@.len() && (forall|j: int|
                i < j < buffers@.len() ==> (#[trigger] buffers@[j]).id != buffers@[i].id)
                ==> texts@.contains_pair((#[trigger] buffers@[i]).id, buffers@[i].text),
        forall|id: u64| #[trigger]
            texts@.contains_key(id) ==> exists|i: int|
                0 <= i < buffers@.len() && (#[trigger] buffers@[i]).id == id,
{
    assert forall|i: int|
        0 <= i < buffers@.len() && (forall|j: int|
            i < j < buffers@.len() ==> (#[trigger] buffers@[j]).id != buffers@[i].id) implies texts@.contains_pair(
        (#[trigger] buffers@[i]).id,
        buffers@[i].text,
    ) by {
        latest_text(buffers@, i);
    }
    assert forall|id: u64| #[trigger] texts@.contains_key(id) implies exists|i: int|
        0 <= i < buffers@.len() && (#[trigger] buffers@[i]).id == id by {
        only_open_texts(buffers@, id);
    }
}

/// The diff shows what became of a buffer: its paths, the text that it had if it was open, and the
/// text that it has.
pub open spec fn records(diff: EditDiff, buffer: TouchedBuffer, before: Map<u64, String>) -> bool {
    &&& diff.path@ == (if buffer.path is Some {
        (buffer.path->0)@
    } else {
        "<untitled>"@
    })
    &&& diff.abs_path@ == (if buffer.abs_path is Some {
        (buffer.abs_path->0)@
    } else {
        Seq::empty()
    })
    &&& diff.line is None
    &&& diff.old_text@ == (if before.dom().contains(buffer.id) {
        before[buffer.id]@
    } else {
        Seq::empty()
    })
    &&& diff.new_text@ == buffer.text@
}

/// No two buffers have the same id.
pub open spec fn ids_differ(buffers: Seq<TouchedBuffer>) -> bool {
    forall|i: int, j: int| 0 <= i < j < buffers.len() ==> buffers[i].id != buffers[j].id
}

/// The diffs show every buffer, once: in order, but for the primary one, which changes places with
/// the first.
pub open spec fn record_all(
    diffs: Seq<EditDiff>,
    buffers: Seq<TouchedBuffer>,
    primary: Option<u64>,
    before: Map<u64, String>,
) -> bool {
    &&& diffs.len() == buffers.len()
    &&& ((primary is None || (forall|i: int|
        0 <= i < buffers.len() ==> (#[trigger] buffers[i]).id != primary->0)) ==> (forall|i: int|
        0 <= i < diffs.len() ==> records(#[trigger] diffs[i], buffers[i], before)))
    &&& (forall|k: int|
        ids_differ(buffers) && 0 <= k < buffers.len() && primary == Some((#[trigger] buffers[k]).id)
            ==> {
            &&& records(diffs[0], buffers[k], before)
            &&& records(diffs[k], buffers[0], before)
            &&& (forall|i: int|
                0 < i < diffs.len() && i != k ==> records(#[trigger] diffs[i], buffers[i], before))
        })
}

proof fn order_without_primary(touched: Seq<TouchedBuffer>, primary: Option<u64>)
    requires
        primary is None || (forall|i: int|
            0 <= i < touched.len() ==> (#[trigger] touched[i]).id != primary->0),
    ensures
        listing_order(touched, primary) == touched,
    decreases touched.len(),
{
    if touched.len() > 0 {
        assert forall|i: int| primary is Some && 0 <= i < touched.drop_last().len() implies (
        #[trigger] touched.drop_last()[i]).id != primary->0 by {
            assert(touched[i].id != primary->0);
        }
        order_without_primary(touched.drop_last(), primary);
        if primary is Some {
            assert(touched[touched.len() - 1].id != primary->0);
        }
        assert(touched.drop_last().push(touched.last()) =~= touched);
    } else {
        assert(listing_order(touched, primary) =~= touched);
    }
}

proof fn order_with_primary(touched: Seq<TouchedBuffer>, k: int)
    requires
        ids_differ(touched),
        0 <= k < touched.len(),
    ensures
        listing_order(touched, Some(touched[k].id)) == touched.update(0, touched[k]).update(
            k,
            touched[0],
        ),
    decreases touched.len(),
{
    let primary = Some(touched[k].id);
    let rest = touched.drop_last();
    if k < touched.len() - 1 {
        order_with_primary(rest, k);
        assert(touched[k].id != touched.last().id);
        assert(listing_order(touched, primary) =~= touched.update(0, touched[k]).update(
            k,
            touched[0],
        ));
    } else {
        assert forall|i: int| 0 <= i < rest.len() implies (#[trigger] rest[i]).id != primary->0 by {
            assert(touched[i].id != touched[k].id);
        }
        order_without_primary(rest, primary);
        assert(listing_order(touched, primary) =~= touched.update(0, touched[k]).update(
            k,
            touched[0],
        ));
    }
}

proof fn changes_are_recorded(
    diffs: Seq<EditDiff>,
    touched: Seq<TouchedBuffer>,
    primary: Option<u64>,
    before: Map<u64, String>,
)
    requires
        crate::edits::are_changes_of(diffs, touched, primary, before),
    ensures
        record_all(diffs, touched, primary, before),
{
    if primary is None || (forall|i: int|
        0 <= i < touched.len() ==> (#[trigger] touched[i]).id != primary->0) {
        order_without_primary(touched, primary);
    }
    assert forall|k: int|
        ids_differ(touched) && 0 <= k < touched.len() && primary == Some((#[trigger] touched[k]).id)
        implies {
        &&& records(diffs[0], touched[k], before)
        &&& records(diffs[k], touched[0], before)
        &&& (forall|i: int|
            0 < i < diffs.len() && i != k ==> records(#[trigger] diffs[i], touched[i], before))
    } by {
        order_with_primary(touched, k);
        let order = listing_order(touched, primary);
        assert(crate::edits::is_change_of(diffs[0], order[0], before));
        assert(crate::edits::is_change_of(diffs[k], order[k], before));
        assert(order[0] == touched[k] && order[k] == touched[0]);
        assert forall|i: int| 0 < i < diffs.len() && i != k implies records(
            #[trigger] diffs[i],
            touched[i],
            before,
        ) by {
            assert(crate::edits::is_change_of(diffs[i], order[i], before));
        }
    }
}

/// Of every buffer that was touched there is a diff with its text before and after, that of the
/// primary buffer first.
pub proof fn touched_buffers_are_recorded(
    touched: Vec<TouchedBuffer>,
    primary: Option<u64>,
    before: &HashMap<u64, String>,
    diffs: Vec<EditDiff>,
)
    requires
        call_ensures(build_diffs_from_touched_buffers, (touched, primary, before), diffs),
    ensures
        record_all(diffs@, touched@, primary, before@),
{
    changes_are_recorded(diffs@, touched@, primary, before@);
}

/// The paths of the diffs, one to a line.
pub open spec fn told_paths(diffs: Seq<EditDiff>) -> Seq<Seq<char>> {
    Seq::new(diffs.len(), |k: int| "- "@ + diffs[k].path@ + "\n"@)
}

proof fn paths_are_told(diffs: Seq<EditDiff>)
    ensures
        path_list(diffs) == told_paths(diffs).flatten(),
    decreases diffs.len(),
{
    if diffs.len() > 0 {
        let rest = diffs.drop_last();
        paths_are_told(rest);
        let line = "- "@ + diffs.last().path@ + "\n"@;
        told_paths(rest).lemma_flatten_push(line);
        assert(told_paths(diffs) =~= told_paths(rest).push(line));
    }
}

/// The result of an operation is an edit, with a diff of every buffer that was touched and with a
/// summary of `heading` and the path of each diff.
pub open spec fn is_edit(
    result: Result<EditOperationOutput, String>,
    heading: Seq<char>,
    touched: TouchedBuffers,
    primary: u64,
) -> bool {
    &&& result matches Ok(EditOperationOutput::Edited(output))
    &&& output.text@ == heading + told_paths(output.diffs@).flatten()
    &&& record_all(output.diffs@, touched.buffers@, Some(primary), touched.before@)
}

proof fn changes_are_edits(
    result: Result<EditOperationOutput, String>,
    heading: Seq<char>,
    touched: TouchedBuffers,
    primary: u64,
)
    requires
        crate::edits::is_change(result, heading, touched, primary),
    ensures
        is_edit(result, heading, touched, primary),
{
    let output = result->Ok_0->Edited_0;
    paths_are_told(output.diffs@);
    changes_are_recorded(output.diffs@, touched.buffers@, Some(primary), touched.before@);
}

/// What an operation has to show is read as its text, whether it changed anything or not.
pub proof fn outputs_are_read(output: &EditOperationOutput, text: &str)
    requires
        call_ensures(EditOperationOutput::text, (output,), text),
    ensures
        *output matches EditOperationOutput::Text(t) ==> text@ == t@,
        *output matches EditOperationOutput::Edited(edited) ==> text@ == edited.text@,
{
}

/// A rename is reported from the old name to the new one, with every file that it changed.
pub proof fn renames_are_reported(
    symbol: &SymbolLocator,
    new_name: &str,
    starting_buffer: u64,
    touched: TouchedBuffers,
    action: RenameAction,
)
    requires
        call_ensures(
            rename_symbol,
            (symbol, new_name, RenameEvent::Saved { starting_buffer, saved: Ok(touched) }),
            action,
        ),
    ensures
        action matches RenameAction::Finish(result) && is_edit(
            result,
            "Renamed `"@ + symbol.symbol_name@ + "` to `"@ + new_name@ + "` in "@ + decimal(
                touched.buffers@.len(),
            ) + " file(s):\n"@,
            touched,
            starting_buffer,
        ),
{
    changes_are_edits(
        action->Finish_0,
        "Renamed `"@ + symbol.symbol_name@ + "` to `"@ + new_name@ + "` in "@ + decimal(
            touched.buffers@.len(),
        ) + " file(s):\n"@,
        touched,
        starting_buffer,
    );
}

/// A rename is made to the new name where a server is running, and what it touched is saved. What
/// goes wrong, or comes to nothing, is told.
pub proof fn renames_go_on_or_tell(
    symbol: &SymbolLocator,
    new_name: &str,
    event: RenameEvent,
    action: RenameAction,
)
    requires
        call_ensures(rename_symbol, (symbol, new_name, event), action),
    ensures
        event matches RenameEvent::Resolved(Ok(_)) ==> action is CheckServer,
        event matches RenameEvent::Resolved(Err(error)) ==> (action matches RenameAction::Finish(
            Err(e),
        ) && e@ == error@),
        event matches RenameEvent::ServerChecked(true) ==> (action matches RenameAction::Perform {
            new_name: n,
        } && n@ == new_name@),
        event matches RenameEvent::ServerChecked(false) ==> (action matches RenameAction::Finish(
            Ok(EditOperationOutput::Text(text)),
        ) && text@ == "No language server is running for `"@ + symbol.file_path@
            + "`. Enable or install a language server in Zed before attempting an LSP-backed rename."@),
        event matches RenameEvent::Renamed(Err(error)) ==> (action matches RenameAction::Finish(Err(e))
            && e@ == "Rename failed: "@ + error@),
        event matches RenameEvent::Renamed(Ok(touched)) ==> (touched@.len() > 0 ==> (
        action matches RenameAction::Save { buffers } && buffers@ == touched@)),
        event matches RenameEvent::Renamed(Ok(touched)) ==> (touched@.len() == 0 ==> (
        action matches RenameAction::Finish(Ok(EditOperationOutput::Text(text))) && text@
            == "No changes were made. The language server could not rename '"@ + symbol.symbol_name@
            + "'."@)),
        event matches RenameEvent::Saved { saved: Err(error), .. } ==> (
        action matches RenameAction::Finish(Err(e)) && e@
            == "Rename succeeded, but failed to save renamed files: "@ + error@),
{
}

/// A file that was formatted and saved is reported with its text before and after.
pub proof fn formatting_is_reported(
    file_path: &str,
    formatted: FormattedBuffer,
    action: FormatAction,
)
    requires
        call_ensures(format_document, (file_path, FormatEvent::Saved { formatted, saved: Ok(()) }), action),
    ensures
        action matches FormatAction::Finish(Ok(EditOperationOutput::Edited(output))) && {
            &&& output.text@ == "Formatted `"@ + file_path@ + "` and saved to disk ("@ + decimal(
                formatted.touched as nat,
            ) + " buffer(s) touched)."@
            &&& output.diffs@.len() == 1
            &&& output.diffs@[0].path@ == file_path@
            &&& output.diffs@[0].abs_path@ == (if formatted.abs_path is Some {
                (formatted.abs_path->0)@
            } else {
                Seq::empty()
            })
            &&& output.diffs@[0].line is None
            &&& output.diffs@[0].old_text@ == formatted.old_text@
            &&& output.diffs@[0].new_text@ == formatted.new_text@
        },
{
}

/// A file is formatted where it is found, opens and has a running server, and then saved. What goes
/// wrong is told.
pub proof fn formatting_goes_on_or_tells(file_path: &str, event: FormatEvent, action: FormatAction)
    requires
        call_ensures(format_document, (file_path, event), action),
    ensures
        event matches FormatEvent::PathSearched { found: true } ==> action is OpenBuffer,
        event matches FormatEvent::PathSearched { found: false } ==> (action matches FormatAction::Finish(
            Err(e),
        ) && e@ == "Could not find path '"@ + file_path@ + "' in project"@),
        event matches FormatEvent::Opened(Ok(_)) ==> action is CheckServer,
        event matches FormatEvent::Opened(Err(error)) ==> (action matches FormatAction::Finish(Err(e))
            && e@ == "Failed to open '"@ + file_path@ + "': "@ + error@),
        event matches FormatEvent::ServerChecked(true) ==> action is Perform,
        event matches FormatEvent::ServerChecked(false) ==> (action matches FormatAction::Finish(
            Ok(EditOperationOutput::Text(text)),
        ) && text@ == "No language server is running for `"@ + file_path@
            + "`. Enable or install a language server in Zed before formatting."@),
        event matches FormatEvent::Formatted(Ok(formatted)) ==> (action matches FormatAction::Save(f)
            && f == formatted),
        event matches FormatEvent::Formatted(Err(error)) ==> (action matches FormatAction::Finish(
            Err(e),
        ) && e@ == "Format failed for '"@ + file_path@ + "': "@ + error@),
        event matches FormatEvent::Saved { saved: Err(error), .. } ==> (
        action matches FormatAction::Finish(Err(e)) && e@
            == "Format applied in-memory but save failed: "@ + error@),
{
}

/// The titles of code actions, one to a line, each behind its number from 1 on.
pub open spec fn told_actions(actions: Seq<CodeAction>) -> Seq<Seq<char>> {
    Seq::new(
        actions.len(),
        |k: int| decimal((k + 1) as nat) + ". "@ + actions[k].title@ + "\n"@,
    )
}

proof fn actions_are_told(actions: Seq<CodeAction>)
    ensures
        numbered_list(actions) == told_actions(actions).flatten(),
    decreases actions.len(),
{
    if actions.len() > 0 {
        let rest = actions.drop_last();
        actions_are_told(rest);
        let line = decimal(actions.len()) + ". "@ + actions.last().title@ + "\n"@;
        told_actions(rest).lemma_flatten_push(line);
        assert(told_actions(actions) =~= told_actions(rest).push(line));
    }
}

/// Code actions are numbered from 1 on, every one of them, in order.
pub proof fn actions_are_numbered(actions: &Vec<CodeAction>, list: String)
    requires
        call_ensures(number_actions, (actions,), list),
    ensures
        list@ == told_actions(actions@).flatten(),
{
    actions_are_told(actions@);
}

/// The code actions that are offered are counted and told by number, and kept as they are, with the
/// buffer for which they were made; the number of each then picks it, and no other.
pub proof fn offered_actions_can_be_picked(
    symbol: &SymbolLocator,
    tool: &str,
    actions: Vec<CodeAction>,
    buffer_id: u64,
    listed: CodeActionsAction,
    pending: PendingCodeActions,
    number: u32,
    applied: ApplyAction,
)
    requires
        actions@.len() > 0,
        call_ensures(
            get_code_actions,
            (symbol, tool, CodeActionsEvent::Listed { actions: Ok(Some(actions)), buffer_id }),
            listed,
        ),
        listed matches CodeActionsAction::Finish(Ok(output)) ==> output.pending == Some(pending),
        call_ensures(apply_code_action, (number, &pending, ApplyEvent::Requested), applied),
    ensures
        listed matches CodeActionsAction::Finish(Ok(output)) && {
            &&& output.text@ == "Found "@ + decimal(actions@.len()) + " code action(s):\n"@
                + told_actions(actions@).flatten() + "\nUse `"@ + tool@
                + "` with the number of the action you want to apply."@
            &&& output.pending is Some
        },
        pending.actions@ == actions@,
        pending.buffer_id == buffer_id,
        1 <= number <= actions@.len() ==> (applied matches ApplyAction::Perform {
            index,
            buffer_id: b,
        } && index == number - 1 && b == buffer_id),
        number == 0 ==> (applied matches ApplyAction::Finish(Err(e)) && e@
            == "Index must be 1 or greater."@),
        number > actions@.len() ==> (applied matches ApplyAction::Finish(Err(e)) && e@ == "Index "@
            + decimal(number as nat) + " is out of range. There were "@ + decimal(actions@.len())
            + " code action(s) available."@),
{
    actions_are_told(actions@);
    let text = listed->Finish_0->Ok_0.text@;
    assert(text =~= "Found "@ + decimal(actions@.len()) + " code action(s):\n"@ + told_actions(
        actions@,
    ).flatten() + "\nUse `"@ + tool@ + "` with the number of the action you want to apply."@);
}

/// Where no code action is offered, that is told and there is nothing to apply. What goes wrong is
/// told.
pub proof fn listings_go_on_or_tell(
    symbol: &SymbolLocator,
    tool: &str,
    event: CodeActionsEvent,
    action: CodeActionsAction,
)
    requires
        call_ensures(get_code_actions, (symbol, tool, event), action),
    ensures
        event matches CodeActionsEvent::Resolved(Ok(_)) ==> action is CheckServer,
        event matches CodeActionsEvent::Resolved(Err(error)) ==> (
        action matches CodeActionsAction::Finish(Err(e)) && e@ == error@),
        event matches CodeActionsEvent::ServerChecked(true) ==> action is Query,
        event matches CodeActionsEvent::ServerChecked(false) ==> (
        action matches CodeActionsAction::Finish(Ok(output)) && output.pending is None && output.text@
            == "No language server is running for `"@ + symbol.file_path@
            + "`. Enable or install a language server in Zed before requesting LSP-backed code actions."@),
        event matches CodeActionsEvent::Listed { actions: Err(error), .. } ==> (
        action matches CodeActionsAction::Finish(Err(e)) && e@ == "Failed to get code actions: "@
            + error@),
        event matches CodeActionsEvent::Listed { actions: Ok(None), .. } ==> (
        action matches CodeActionsAction::Finish(Ok(output)) && output.pending is None && output.text@
            == "No language server capable of providing code actions is available for `"@
            + symbol.file_path@ + "`."@),
        event matches CodeActionsEvent::Listed { actions: Ok(Some(list)), .. } ==> (list@.len() == 0
            ==> (action matches CodeActionsAction::Finish(Ok(output)) && output.pending is None
            && output.text@ == "No code actions available for '"@ + symbol.symbol_name@
            + "' at this location."@)),
{
}

/// The code action of a number that was applied is reported by its title, with every file that it
/// changed; what it touched is saved before. What goes wrong, or comes to nothing, is told.
pub proof fn applied_actions_are_reported(
    number: u32,
    pending: &PendingCodeActions,
    event: ApplyEvent,
    action: ApplyAction,
)
    requires
        1 <= number <= pending.actions@.len(),
        call_ensures(apply_code_action, (number, pending, event), action),
    ensures
        ({
            let title = pending.actions@[number - 1].title@;
            &&& (event matches ApplyEvent::Applied(Err(error)) ==> (action matches ApplyAction::Finish(
                Err(e),
            ) && e@ == "Failed to apply code action '"@ + title + "': "@ + error@))
            &&& (event matches ApplyEvent::Applied(Ok(touched)) ==> (touched@.len() > 0 ==> (
            action matches ApplyAction::Save { buffers } && buffers@ == touched@)))
            &&& (event matches ApplyEvent::Applied(Ok(touched)) ==> (touched@.len() == 0 ==> (
            action matches ApplyAction::Finish(Ok(EditOperationOutput::Text(text))) && text@
                == "Code action '"@ + title + "' was applied but produced no changes."@)))
            &&& (event matches ApplyEvent::Saved(Err(error)) ==> (action matches ApplyAction::Finish(
                Err(e),
            ) && e@ == "Code action '"@ + title + "' applied but saving touched files failed: "@
                + error@))
            &&& (event matches ApplyEvent::Saved(Ok(touched)) ==> (action matches ApplyAction::Finish(
                result,
            ) && is_edit(
                result,
                "Applied code action '"@ + title + "'. Modified "@ + decimal(touched.buffers@.len())
                    + " file(s):\n"@,
                touched,
                pending.buffer_id,
            )))
        }),
{
    if let ApplyEvent::Saved(Ok(touched)) = event {
        changes_are_edits(
            action->Finish_0,
            "Applied code action '"@ + pending.actions@[number - 1].title@ + "'. Modified "@ + decimal(
                touched.buffers@.len(),
            ) + " file(s):\n"@,
            touched,
            pending.buffer_id,
        );
    }
}

} // verus!
