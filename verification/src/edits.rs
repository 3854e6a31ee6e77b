//! The results of operations that change files.

use vstd::prelude::*;
use vstd::string::*;
use std::collections::HashMap;

use crate::text::concat3;

verus! {

/// One file before and after an operation.
#[derive(Clone, Debug)]
pub struct EditDiff {
    pub path: String,
    pub abs_path: String,
    /// The 0-based row at which the change begins, where it has one.
    pub line: Option<u32>,
    pub old_text: String,
    pub new_text: String,
}

/// A summary with the files that an operation changed.
#[derive(Clone, Debug)]
pub struct EditOutput {
    pub text: String,
    pub diffs: Vec<EditDiff>,
}

/// What an operation that may change files has to show.
#[derive(Clone, Debug)]
pub enum EditOperationOutput {
    Text(String),
    Edited(EditOutput),
}

impl EditOperationOutput {
    /// The text that the agent reads.
    pub open spec fn spec_text(&self) -> Seq<char> {
        match self {
            EditOperationOutput::Text(text) => text@,
            EditOperationOutput::Edited(output) => output.text@,
        }
    }

    /// The text that the agent reads.
    pub fn text(&self) -> (r: &str)
        ensures
            r@ == self.spec_text(),
    {
        match self {
            EditOperationOutput::Text(text) => text.as_str(),
            EditOperationOutput::Edited(output) => output.text.as_str(),
        }
    }
}

/// A buffer that an operation touched, as it is afterwards.
pub struct TouchedBuffer {
    pub id: u64,
    /// The path for display; `None` for a buffer without a file.
    pub path: Option<String>,
    /// The path on the local disk, where there is one.
    pub abs_path: Option<String>,
    pub text: String,
}

/// An open buffer with its text.
pub struct OpenBufferText {
    pub id: u64,
    pub text: String,
}

/// The texts of buffers by their ids; of two buffers with one id, the later counts.
pub open spec fn texts_by_id(buffers: Seq<OpenBufferText>) -> Map<u64, String>
    decreases buffers.len(),
{
    if buffers.len() == 0 {
        Map::empty()
    } else {
        texts_by_id(buffers.drop_last()).insert(buffers.last().id, buffers.last().text)
    }
}

/// Remembers the texts of the open buffers.
pub fn snapshot_open_buffer_texts(buffers: Vec<OpenBufferText>) -> (r: HashMap<u64, String>)
    ensures
        r@ == texts_by_id(buffers@),
{
    broadcast use vstd::std_specs::hash::group_hash_axioms;

    let ghost all = buffers@;
    let mut texts: HashMap<u64, String> = HashMap::new();
    for buffer in it: buffers
        invariant
            it.seq() == all,
            texts@ == texts_by_id(all.take(it.index() as int)),
    {
        proof {
            assert(all.take(it.index() + 1).drop_last() =~= all.take(it.index() as int));
        }
        texts.insert(buffer.id, buffer.text);
    }
    assert(all.take(all.len() as int) =~= all);
    texts
}

/// What is known of a text before an operation: empty for a buffer that was not open.
pub open spec fn text_before(before: Map<u64, String>, id: u64) -> Seq<char> {
    if before.contains_key(id) {
        before[id]@
    } else {
        Seq::empty()
    }
}

/// `diff` is the change of `buffer`, given the texts before the operation.
pub open spec fn is_change_of(diff: EditDiff, buffer: TouchedBuffer, before: Map<u64, String>) -> bool {
    &&& diff.path@ == match buffer.path {
        Some(path) => path@,
        None => "<untitled>"@,
    }
    &&& diff.abs_path@ == match buffer.abs_path {
        Some(path) => path@,
        None => Seq::empty(),
    }
    &&& diff.line is None
    &&& diff.old_text@ == text_before(before, buffer.id)
    &&& diff.new_text@ == buffer.text@
}

/// The order in which touched buffers are listed: as they come, but whenever the primary buffer
/// comes it changes places with the first.
pub open spec fn listing_order(touched: Seq<TouchedBuffer>, primary: Option<u64>) -> Seq<TouchedBuffer>
    decreases touched.len(),
{
    if touched.len() == 0 {
        Seq::empty()
    } else {
        let listed = listing_order(touched.drop_last(), primary).push(touched.last());
        if primary == Some(touched.last().id) {
            listed.update(0, touched.last()).update(listed.len() - 1, listed[0])
        } else {
            listed
        }
    }
}

/// `diffs` are the changes of the touched buffers, in the order in which they are listed.
pub open spec fn are_changes_of(
    diffs: Seq<EditDiff>,
    touched: Seq<TouchedBuffer>,
    primary: Option<u64>,
    before: Map<u64, String>,
) -> bool {
    &&& diffs.len() == touched.len()
    &&& forall|i: int|
        0 <= i < diffs.len() ==> is_change_of(
            #[trigger] diffs[i],
            listing_order(touched, primary)[i],
            before,
        )
}

/// Builds the changes of the touched buffers, the primary buffer's first.
pub fn build_diffs_from_touched_buffers(
    touched: Vec<TouchedBuffer>,
    primary_buffer_id: Option<u64>,
    pre_snapshot: &HashMap<u64, String>,
) -> (diffs: Vec<EditDiff>)
    ensures
        are_changes_of(diffs@, touched@, primary_buffer_id, pre_snapshot@),
{
    broadcast use vstd::std_specs::hash::group_hash_axioms;

    let ghost all = touched@;
    let mut diffs: Vec<EditDiff> = Vec::new();
    for buffer in it: touched
        invariant
            it.seq() == all,
            diffs@.len() == it.index(),
            listing_order(all.take(it.index() as int), primary_buffer_id).len() == it.index(),
            forall|i: int|
                0 <= i < diffs@.len() ==> is_change_of(
                    #[trigger] diffs@[i],
                    listing_order(all.take(it.index() as int), primary_buffer_id)[i],
                    pre_snapshot@,
                ),
    {
        let ghost known = all.take(it.index() as int);
        let id = buffer.id;
        let old_text = match pre_snapshot.get(&id) {
            Some(text) => text.clone(),
            None => String::new(),
        };
        let diff = EditDiff {
            path: match buffer.path {
                Some(path) => path,
                None => "<untitled>".to_string(),
            },
            abs_path: match buffer.abs_path {
                Some(path) => path,
                None => String::new(),
            },
            line: None,
            old_text,
            new_text: buffer.text,
        };
        diffs.push(diff);
        proof {
            assert(all.take(it.index() + 1).drop_last() =~= known);
        }
        if let Some(primary) = primary_buffer_id {
            if id == primary && diffs.len() > 1 {
                let first = diffs.swap_remove(0);
                diffs.push(first);
            }
        }
    }
    assert(all.take(all.len() as int) =~= all);
    diffs
}

/// What there is to know of the buffers that an operation touched.
pub struct TouchedBuffers {
    pub buffers: Vec<TouchedBuffer>,
    /// The texts of the open buffers before the operation, by buffer id.
    pub before: HashMap<u64, String>,
}

impl TouchedBuffers {
    /// `diffs` are the changes of these buffers, that of the primary buffer first.
    pub open spec fn changed_as(&self, primary: u64, diffs: Seq<EditDiff>) -> bool {
        are_changes_of(diffs, self.buffers@, Some(primary), self.before@)
    }

    /// Builds the changes of these buffers, that of the primary buffer first.
    pub fn into_diffs(self, primary: u64) -> (diffs: Vec<EditDiff>)
        ensures
            self.changed_as(primary, diffs@),
    {
        build_diffs_from_touched_buffers(self.buffers, Some(primary), &self.before)
    }
}

/// The paths of changed files, one to a line.
pub open spec fn path_list(diffs: Seq<EditDiff>) -> Seq<char>
    decreases diffs.len(),
{
    if diffs.len() == 0 {
        Seq::empty()
    } else {
        path_list(diffs.drop_last()) + ("- "@ + diffs.last().path@ + "\n"@)
    }
}

/// Lists the paths of changed files, one to a line.
pub fn list_paths(diffs: &Vec<EditDiff>) -> (r: String)
    ensures
        r@ == path_list(diffs@),
{
    let mut out = String::new();
    let mut i: usize = 0;
    while i < diffs.len()
        invariant
            i <= diffs.len(),
            out@ == path_list(diffs@.take(i as int)),
        decreases diffs.len() - i,
    {
        out.append(concat3("- ", diffs[i].path.as_str(), "\n").as_str());
        proof {
            assert(diffs@.take(i + 1).drop_last() =~= diffs@.take(i as int));
        }
        i = i + 1;
    }
    assert(diffs@.take(diffs@.len() as int) =~= diffs@);
    out
}

/// The operation ends with `text`, having changed nothing.
pub open spec fn is_text(result: Result<EditOperationOutput, String>, text: Seq<char>) -> bool {
    result matches Ok(EditOperationOutput::Text(t)) && t@ == text
}

/// The operation fails with `message`.
pub open spec fn is_failure(result: Result<EditOperationOutput, String>, message: Seq<char>) -> bool {
    result matches Err(error) && error@ == message
}

/// The operation ends with the changes of `touched`, that of the primary buffer first, under a
/// summary that is `heading` and the list of the changed paths.
pub open spec fn is_change(
    result: Result<EditOperationOutput, String>,
    heading: Seq<char>,
    touched: TouchedBuffers,
    primary: u64,
) -> bool {
    &&& result matches Ok(EditOperationOutput::Edited(output))
    &&& touched.changed_as(primary, output.diffs@)
    &&& output.text@ == heading + path_list(output.diffs@)
}

/// Reports the changes of `touched` under `heading`.
pub fn report_changes(heading: String, touched: TouchedBuffers, primary: u64) -> (r:
    EditOperationOutput)
    ensures
        is_change(Ok(r), heading@, touched, primary),
{
    let diffs = touched.into_diffs(primary);
    let mut text = heading;
    text.append(list_paths(&diffs).as_str());
    EditOperationOutput::Edited(EditOutput { text, diffs })
}

/// The listing holds the touched buffers and no others, each as often as it was touched.
pub proof fn listing_keeps_the_buffers(touched: Seq<TouchedBuffer>, primary: Option<u64>)
    ensures
        listing_order(touched, primary).len() == touched.len(),
        listing_order(touched, primary).to_multiset() == touched.to_multiset(),
    decreases touched.len(),
{
    broadcast use vstd::seq_lib::group_to_multiset_ensures;

    if touched.len() > 0 {
        let rest = listing_order(touched.drop_last(), primary);
        listing_keeps_the_buffers(touched.drop_last(), primary);
        assert(touched =~= touched.drop_last().push(touched.last()));
        let listed = rest.push(touched.last());
        let swapped = listed.update(0, touched.last()).update(listed.len() - 1, listed[0]);
        assert(swapped.to_multiset() =~= listed.to_multiset());
    }
}

/// Where no two touched buffers have the same id, the primary buffer is listed first.
pub proof fn primary_is_listed_first(touched: Seq<TouchedBuffer>, primary: u64, k: int)
    requires
        0 <= k < touched.len(),
        touched[k].id == primary,
        forall|i: int, j: int| 0 <= i < j < touched.len() ==> touched[i].id != touched[j].id,
    ensures
        listing_order(touched, Some(primary))[0] == touched[k],
    decreases touched.len(),
{
    let rest = listing_order(touched.drop_last(), Some(primary));
    listing_keeps_the_buffers(touched.drop_last(), Some(primary));
    if k < touched.len() - 1 {
        primary_is_listed_first(touched.drop_last(), primary, k);
        assert(touched[k].id != touched.last().id);
    }
}

} // verus!
