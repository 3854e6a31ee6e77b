//! Code actions: listing what a language server offers, and applying one of the list.

use vstd::prelude::*;
use vstd::string::*;

use crate::edits::{
    is_change, is_failure, is_text, report_changes, EditOperationOutput, TouchedBuffers,
};
use crate::symbol::SymbolLocator;
use crate::text::{concat2, concat3, concat4, concat5, decimal, decimal_text};

verus! {

/// A code action that a language server offers.
#[derive(Clone, Debug)]
pub struct CodeAction {
    pub title: String,
}

/// A list of code actions from which one can be applied, and the buffer for which it was made.
pub struct PendingCodeActions {
    pub actions: Vec<CodeAction>,
    pub buffer_id: u64,
}

/// A list of code actions as the agent reads it, with the list itself where there is one.
pub struct CodeActionsOutput {
    pub text: String,
    pub pending: Option<PendingCodeActions>,
}

/// The titles, numbered from 1, one to a line.
pub open spec fn numbered_list(actions: Seq<CodeAction>) -> Seq<char>
    decreases actions.len(),
{
    if actions.len() == 0 {
        Seq::empty()
    } else {
        numbered_list(actions.drop_last()) + (decimal(actions.len()) + ". "@ + actions.last().title@
            + "\n"@)
    }
}

/// Numbers the titles from 1, one to a line.
pub fn number_actions(actions: &Vec<CodeAction>) -> (r: String)
    ensures
        r@ == numbered_list(actions@),
{
    let mut out = String::new();
    let mut i: usize = 0;
    while i < actions.len()
        invariant
            i <= actions.len(),
            out@ == numbered_list(actions@.take(i as int)),
        decreases actions.len() - i,
    {
        let number = decimal_text(i as u64 + 1);
        out.append(concat4(number.as_str(), ". ", actions[i].title.as_str(), "\n").as_str());
        proof {
            assert(actions@.take(i + 1).drop_last() =~= actions@.take(i as int));
        }
        i = i + 1;
    }
    assert(actions@.take(actions@.len() as int) =~= actions@);
    out
}

/// What the editor reports while code actions are being listed.
pub enum CodeActionsEvent {
    /// The symbol was resolved in a buffer, or could not be.
    Resolved(Result<(), String>),
    /// Whether a language server is running for the buffer.
    ServerChecked(bool),
    /// The language servers answered; `None` where none of them offers code actions.
    Listed { actions: Result<Option<Vec<CodeAction>>, String>, buffer_id: u64 },
}

/// What is to be done next to list code actions.
pub enum CodeActionsAction {
    CheckServer,
    Query,
    Finish(Result<CodeActionsOutput, String>),
}

impl CodeActionsAction {
    /// The list ends with `text` and nothing to apply.
    pub open spec fn ends_with(&self, text: Seq<char>) -> bool {
        &&& self matches CodeActionsAction::Finish(Ok(output))
        &&& output.text@ == text
        &&& output.pending is None
    }

    /// The listing fails with `message`.
    pub open spec fn fails_with(&self, message: Seq<char>) -> bool {
        self matches CodeActionsAction::Finish(Err(error)) && error@ == message
    }
}

/// A list that says only `text`.
fn nothing_to_apply(text: String) -> (r: CodeActionsAction)
    ensures
        r.ends_with(text@),
{
    CodeActionsAction::Finish(Ok(CodeActionsOutput { text, pending: None }))
}

/// Lists the code actions at a symbol step by step.
pub fn get_code_actions(
    symbol: &SymbolLocator,
    apply_tool_name: &str,
    event: CodeActionsEvent,
) -> (action: CodeActionsAction)
    ensures
        match event {
            CodeActionsEvent::Resolved(Ok(_)) => action is CheckServer,
            CodeActionsEvent::Resolved(Err(error)) => action.fails_with(error@),
            CodeActionsEvent::ServerChecked(true) => action is Query,
            CodeActionsEvent::ServerChecked(false) => action.ends_with(
                "No language server is running for `"@ + symbol.file_path@
                    + "`. Enable or install a language server in Zed before requesting LSP-backed code actions."@,
            ),
            CodeActionsEvent::Listed { actions: Err(error), .. } => action.fails_with(
                "Failed to get code actions: "@ + error@,
            ),
            CodeActionsEvent::Listed { actions: Ok(None), .. } => action.ends_with(
                "No language server capable of providing code actions is available for `"@
                    + symbol.file_path@ + "`."@,
            ),
            CodeActionsEvent::Listed { actions: Ok(Some(list)), buffer_id } => if list@.len()
                == 0 {
                action.ends_with(
                    "No code actions available for '"@ + symbol.symbol_name@
                        + "' at this location."@,
                )
            } else {
                &&& action matches CodeActionsAction::Finish(Ok(output))
                &&& output.text@ == "Found "@ + decimal(list@.len()) + " code action(s):\n"@
                    + numbered_list(list@) + ("\nUse `"@ + apply_tool_name@
                    + "` with the number of the action you want to apply."@)
                &&& output.pending matches Some(pending)
                &&& pending.actions == list
                &&& pending.buffer_id == buffer_id
            },
        },
{
    match event {
        CodeActionsEvent::Resolved(Ok(_)) => CodeActionsAction::CheckServer,
        CodeActionsEvent::Resolved(Err(error)) => CodeActionsAction::Finish(Err(error)),
        CodeActionsEvent::ServerChecked(running) => if running {
            CodeActionsAction::Query
        } else {
            nothing_to_apply(
                concat3(
                    "No language server is running for `",
                    symbol.file_path.as_str(),
                    "`. Enable or install a language server in Zed before requesting LSP-backed code actions.",
                ),
            )
        },
        CodeActionsEvent::Listed { actions: Err(error), .. } => CodeActionsAction::Finish(
            Err(concat2("Failed to get code actions: ", error.as_str())),
        ),
        CodeActionsEvent::Listed { actions: Ok(None), .. } => nothing_to_apply(
            concat3(
                "No language server capable of providing code actions is available for `",
                symbol.file_path.as_str(),
                "`.",
            ),
        ),
        CodeActionsEvent::Listed { actions: Ok(Some(list)), buffer_id } => {
            if list.is_empty() {
                return nothing_to_apply(
                    concat3(
                        "No code actions available for '",
                        symbol.symbol_name.as_str(),
                        "' at this location.",
                    ),
                );
            }
            let count = decimal_text(list.len() as u64);
            let invitation = concat3(
                "\nUse `",
                apply_tool_name,
                "` with the number of the action you want to apply.",
            );
            let text = concat5(
                "Found ",
                count.as_str(),
                " code action(s):\n",
                number_actions(&list).as_str(),
                invitation.as_str(),
            );
            CodeActionsAction::Finish(
                Ok(
                    CodeActionsOutput {
                        text,
                        pending: Some(PendingCodeActions { actions: list, buffer_id }),
                    },
                ),
            )
        },
    }
}

/// What the editor reports while a code action is being applied.
pub enum ApplyEvent {
    /// The agent asks for the action with the given number.
    Requested,
    /// The action was applied and touched the buffers, or it failed.
    Applied(Result<Vec<u64>, String>),
    /// The touched buffers were saved, or could not be.
    Saved(Result<TouchedBuffers, String>),
}

/// What is to be done next to apply a code action.
pub enum ApplyAction {
    /// Remember the texts of the open buffers, and apply the action at the index of the list to the
    /// buffer.
    Perform { index: usize, buffer_id: u64 },
    /// Save the buffers.
    Save { buffers: Vec<u64> },
    Finish(Result<EditOperationOutput, String>),
}

impl ApplyAction {
    /// The application ends with `text`, having changed nothing.
    pub open spec fn ends_with(&self, text: Seq<char>) -> bool {
        self matches ApplyAction::Finish(result) && is_text(*result, text)
    }

    /// The application fails with `message`.
    pub open spec fn fails_with(&self, message: Seq<char>) -> bool {
        self matches ApplyAction::Finish(result) && is_failure(*result, message)
    }
}

/// The number of an action, as an index into the list of pending actions.
pub open spec fn action_index(index: u32, count: nat) -> Option<int> {
    if 1 <= index <= count {
        Some(index - 1)
    } else {
        None
    }
}

/// The answer to a number that no action of the list has.
pub open spec fn no_such_action(index: u32, count: nat) -> Seq<char> {
    if index == 0 {
        "Index must be 1 or greater."@
    } else {
        "Index "@ + decimal(index as nat) + " is out of range. There were "@ + decimal(count)
            + " code action(s) available."@
    }
}

/// Applies the action with the 1-based number `index` of a list, step by step.
pub fn apply_code_action(index: u32, pending: &PendingCodeActions, event: ApplyEvent) -> (action:
    ApplyAction)
    ensures
        match action_index(index, pending.actions@.len()) {
            None => action.fails_with(no_such_action(index, pending.actions@.len())),
            Some(i) => match event {
                ApplyEvent::Requested => {
                    &&& action matches ApplyAction::Perform { index: k, buffer_id }
                    &&& k == i
                    &&& buffer_id == pending.buffer_id
                },
                ApplyEvent::Applied(Err(error)) => action.fails_with(
                    "Failed to apply code action '"@ + pending.actions@[i].title@ + "': "@ + error@,
                ),
                ApplyEvent::Applied(Ok(touched)) => if touched@.len() == 0 {
                    action.ends_with(
                        "Code action '"@ + pending.actions@[i].title@
                            + "' was applied but produced no changes."@,
                    )
                } else {
                    action matches ApplyAction::Save { buffers } && buffers == touched
                },
                ApplyEvent::Saved(Err(error)) => action.fails_with(
                    "Code action '"@ + pending.actions@[i].title@
                        + "' applied but saving touched files failed: "@ + error@,
                ),
                ApplyEvent::Saved(Ok(touched)) => {
                    &&& action matches ApplyAction::Finish(result)
                    &&& is_change(
                        result,
                        "Applied code action '"@ + pending.actions@[i].title@ + "'. Modified "@
                            + decimal(touched.buffers@.len()) + " file(s):\n"@,
                        touched,
                        pending.buffer_id,
                    )
                },
            },
        },
{
    if index == 0 {
        return ApplyAction::Finish(Err("Index must be 1 or greater.".to_string()));
    }
    let i: usize = (index - 1) as usize;
    if i >= pending.actions.len() {
        return ApplyAction::Finish(
            Err(
                concat5(
                    "Index ",
                    decimal_text(index as u64).as_str(),
                    " is out of range. There were ",
                    decimal_text(pending.actions.len() as u64).as_str(),
                    " code action(s) available.",
                ),
            ),
        );
    }
    let title = pending.actions[i].title.as_str();
    match event {
        ApplyEvent::Requested => ApplyAction::Perform { index: i, buffer_id: pending.buffer_id },
        ApplyEvent::Applied(Err(error)) => ApplyAction::Finish(
            Err(concat4("Failed to apply code action '", title, "': ", error.as_str())),
        ),
        ApplyEvent::Applied(Ok(touched)) => if touched.is_empty() {
            ApplyAction::Finish(
                Ok(
                    EditOperationOutput::Text(
                        concat3("Code action '", title, "' was applied but produced no changes."),
                    ),
                ),
            )
        } else {
            ApplyAction::Save { buffers: touched }
        },
        ApplyEvent::Saved(Err(error)) => ApplyAction::Finish(
            Err(
                concat4(
                    "Code action '",
                    title,
                    "' applied but saving touched files failed: ",
                    error.as_str(),
                ),
            ),
        ),
        ApplyEvent::Saved(Ok(touched)) => {
            let heading = concat5(
                "Applied code action '",
                title,
                "'. Modified ",
                decimal_text(touched.buffers.len() as u64).as_str(),
                " file(s):\n",
            );
            ApplyAction::Finish(Ok(report_changes(heading, touched, pending.buffer_id)))
        },
    }
}

/// The list of code actions that an agent was last shown. It is kept until the next list is made or
/// one of its actions was applied with success.
pub struct CodeActionStore {
    pub pending: Option<PendingCodeActions>,
}

/// The store once the application of an action of `list` has ended: after a failure the list comes
/// back, unless a newer one has taken its place.
pub open spec fn settled(
    pending: Option<PendingCodeActions>,
    list: PendingCodeActions,
    succeeded: bool,
) -> Option<PendingCodeActions> {
    if succeeded || pending is Some {
        pending
    } else {
        Some(list)
    }
}

impl CodeActionStore {
    /// A store without a list.
    pub fn new() -> (r: Self)
        ensures
            r.pending is None,
    {
        CodeActionStore { pending: None }
    }

    /// Keeps what the latest listing found in place of an earlier list, and hands out its text.
    pub fn keep(&mut self, output: CodeActionsOutput) -> (text: String)
        ensures
            final(self).pending == output.pending,
            text == output.text,
    {
        self.pending = output.pending;
        output.text
    }

    /// Lends the list out to have one of its actions applied, or fails with `missing` where there
    /// is none.
    pub fn lend(&mut self, missing: &str) -> (r: Result<PendingCodeActions, String>)
        ensures
            match old(self).pending {
                Some(list) => r matches Ok(l) && l == list,
                None => r matches Err(error) && error@ == missing@,
            },
            final(self).pending is None,
    {
        match self.pending.take() {
            Some(list) => Ok(list),
            None => Err(missing.to_string()),
        }
    }

    /// Ends the application of an action of `list`.
    pub fn settle(&mut self, list: PendingCodeActions, succeeded: bool)
        ensures
            final(self).pending == settled(old(self).pending, list, succeeded),
    {
        if !succeeded && self.pending.is_none() {
            self.pending = Some(list);
        }
    }
}

/// A list survives an application that fails, is gone after one that succeeds, and in either case
/// gives way to a list that was made in between.
pub proof fn list_is_kept_until_applied(list: PendingCodeActions, newer: PendingCodeActions)
    ensures
        settled(None, list, false) == Some(list),
        settled(None, list, true) is None,
        settled(Some(newer), list, false) == Some(newer),
        settled(Some(newer), list, true) == Some(newer),
{
}

/// Every number in a list names the action that stands beside it, and no other number names any:
/// the line of the number in the list, below those of the actions before it, holds the number and
/// the title of the action that the number names.
pub proof fn numbers_name_the_actions(actions: Seq<CodeAction>, index: u32)
    ensures
        match action_index(index, actions.len()) {
            Some(i) => {
                &&& 0 <= i < actions.len()
                &&& index == i + 1
                &&& numbered_list(actions.take(i + 1)) == numbered_list(actions.take(i)) + (decimal(
                    index as nat,
                ) + ". "@ + actions[i].title@ + "\n"@)
                &&& exists|rest: Seq<char>|
                    numbered_list(actions) == #[trigger] (numbered_list(actions.take(i + 1)) + rest)
            },
            None => index == 0 || index > actions.len(),
        },
{
    if let Some(i) = action_index(index, actions.len()) {
        assert(actions.take(i + 1).drop_last() =~= actions.take(i));
        list_begins_with(actions, i + 1);
    }
}

/// A list begins with the list of its first actions.
proof fn list_begins_with(actions: Seq<CodeAction>, n: int)
    requires
        0 <= n <= actions.len(),
    ensures
        exists|rest: Seq<char>|
            numbered_list(actions) == #[trigger] (numbered_list(actions.take(n)) + rest),
    decreases actions.len(),
{
    let first = numbered_list(actions.take(n));
    if n == actions.len() {
        assert(actions.take(n) =~= actions);
        assert(first + Seq::<char>::empty() =~= numbered_list(actions));
    } else {
        list_begins_with(actions.drop_last(), n);
        assert(actions.drop_last().take(n) =~= actions.take(n));
        let rest = choose|rest: Seq<char>|
            numbered_list(actions.drop_last()) == #[trigger] (first + rest);
        let line = decimal(actions.len()) + ". "@ + actions.last().title@ + "\n"@;
        assert(first + (rest + line) =~= numbered_list(actions));
    }
}

} // verus!
