//! Laws on reading and editing buffers over the bridge.

use vstd::prelude::*;
use vstd::utf8::encode_utf8;

use crate::bridge::buffers::{
    apply_text_edit, expand_tilde, open_buffer, read_buffer, Excerpt, OpenBuffer, PathForm,
    ReadBufferAction, ReadBufferEvent, SavedEdit, TextEditAction, TextEditEvent,
};
use crate::bridge::calls::{build_edit_output, diffs_json, edit_meta, BridgeDiff, ToolOutput};
use crate::json::JsonView;
use crate::laws::search::{lengths_are_those_of_utf8, occurring_is_standing, stands_in};
use crate::laws::{has_member, lacks_member};
use crate::search::{
    absent_from, count_matches, count_places, first_from, first_from_is_first, is_first_from,
    matches_from, occurs_at, places, places_are_counted, places_below,
};
use crate::snapshot::{joined, TextSnapshot};
use crate::text::decimal;

verus! {

/// The line that is meant among `count` lines: 0 counts as the first, and what lies beyond the end
/// as the last.
pub open spec fn meant_line(line: u32, count: int) -> int {
    if line == 0 {
        1
    } else if line > count {
        count
    } else {
        line as int
    }
}

/// The lines of a buffer are read from one to the other of the lines that are named, in whichever
/// order they are given; from the first or to the last where one is left out.
pub proof fn named_lines_are_read(
    file_path: &str,
    start_line: Option<u32>,
    end_line: Option<u32>,
    snapshot: TextSnapshot,
    action: ReadBufferAction,
)
    requires
        1 <= snapshot.lines().len() <= u32::MAX,
        call_ensures(
            read_buffer,
            (file_path, start_line, end_line, ReadBufferEvent::Opened(Ok(snapshot))),
            action,
        ),
    ensures
        action matches ReadBufferAction::Render(excerpt) && {
            let count = snapshot.lines().len() as int;
            let from = match start_line {
                Some(line) => meant_line(line, count),
                None => 1,
            };
            let to = match end_line {
                Some(line) => meant_line(line, count),
                None => count,
            };
            &&& excerpt.total_lines == count
            &&& (from <= to ==> {
                &&& excerpt.text@ == joined(snapshot.lines().subrange(from - 1, to))
                &&& excerpt.start_row == from - 1
            })
            &&& (to <= from ==> {
                &&& excerpt.text@ == joined(snapshot.lines().subrange(to - 1, from))
                &&& excerpt.start_row == to - 1
            })
        },
{
}

/// The value of a member of the data that go with the output of a tool.
pub open spec fn tells_editor(meta: JsonView, name: Seq<char>, held: JsonView) -> bool {
    exists|data: JsonView| #[trigger]
        has_member(meta, "zed_bridge"@, data) && has_member(data, name, held)
}

/// What was read is shown as it was set, below the path, the number of lines and, where there are
/// edits that are not saved, a remark on them; the editor is told the file and the row.
pub proof fn what_was_read_is_shown(
    file_path: &str,
    start_line: Option<u32>,
    end_line: Option<u32>,
    excerpt: Excerpt,
    code_block: String,
    dirty: bool,
    abs_path: Option<String>,
    action: ReadBufferAction,
)
    requires
        call_ensures(
            read_buffer,
            (
                file_path,
                start_line,
                end_line,
                ReadBufferEvent::Rendered { excerpt, code_block, dirty, abs_path },
            ),
            action,
        ),
    ensures
        action matches ReadBufferAction::Finish(Ok(ToolOutput::Rich { text, meta })) && {
            &&& text@ == (if dirty {
                "(buffer is dirty — shown content includes unsaved user edits)\n"@
            } else {
                Seq::empty()
            }) + file_path@ + " ("@ + decimal(excerpt.total_lines as nat) + " lines)\n"@ + code_block@
            &&& tells_editor(meta.view(), "path"@, JsonView::Text(file_path@))
            &&& tells_editor(
                meta.view(),
                "abs_path"@,
                JsonView::Text(
                    if abs_path is Some {
                        (abs_path->0)@
                    } else {
                        Seq::empty()
                    },
                ),
            )
            &&& tells_editor(
                meta.view(),
                "line"@,
                JsonView::Number(decimal(excerpt.start_row as nat)),
            )
        },
{
    reveal_strlit("");
    reveal_strlit("path");
    reveal_strlit("abs_path");
    reveal_strlit("line");
    assert(""@ =~= Seq::<char>::empty());
    assert("path"@.len() == 4 && "abs_path"@.len() == 8 && "line"@.len() == 4);
    assert("path"@[0] == 'p' && "line"@[0] == 'l');
    let output = action->Finish_0->Ok_0;
    let meta = output->meta.view();
    let outer = meta->Object_0;
    let data = outer[0].1;
    let inner = data->Object_0;
    assert(outer[0] == ("zed_bridge"@, data));
    assert(has_member(meta, "zed_bridge"@, data));
    assert(inner[0].0 == "path"@ && inner[1].0 == "abs_path"@ && inner[2].0 == "line"@);
    assert(has_member(data, "path"@, inner[0].1));
    assert(has_member(data, "abs_path"@, inner[1].1));
    assert(has_member(data, "line"@, inner[2].1));
}

/// A buffer that cannot be opened is told of with the reason.
pub proof fn unreadable_buffers_are_told(
    file_path: &str,
    start_line: Option<u32>,
    end_line: Option<u32>,
    error: String,
    action: ReadBufferAction,
)
    requires
        call_ensures(
            read_buffer,
            (file_path, start_line, end_line, ReadBufferEvent::Opened(Err(error))),
            action,
        ),
    ensures
        action matches ReadBufferAction::Finish(Err(e)) && e@ == "Failed to open '"@ + file_path@
            + "': "@ + error@,
{
}

/// A path begins at the home directory exactly where it is a tilde, alone or before a slash; every
/// other path is taken as it is.
pub proof fn tildes_stand_for_home(file_path: &str, r: PathForm)
    requires
        call_ensures(expand_tilde, (file_path,), r),
    ensures
        forall|rest: Seq<char>|
            file_path@ == #[trigger] ("~/"@ + rest) ==> (r matches PathForm::UnderHome(below)
                && below@ == rest),
        file_path@ == seq!['~'] ==> r is Home,
        file_path@.len() == 0 || file_path@[0] != '~' || (file_path@.len() > 1 && file_path@[1] != '/')
            ==> (r matches PathForm::Literal(path) && path@ == file_path@),
{
    reveal_strlit("~/");
    reveal_strlit("~");
    assert("~"@ =~= seq!['~']);
    assert forall|rest: Seq<char>| file_path@ == #[trigger] ("~/"@ + rest) implies (
    r matches PathForm::UnderHome(below) && below@ == rest) by {
        assert(file_path@.take(2) =~= "~/"@);
        assert(file_path@.skip(2) =~= rest);
    }
    if file_path@.len() >= 2 && file_path@.take(2) == "~/"@ {
        assert(file_path@.take(2)[0] == '~' && file_path@.take(2)[1] == '/');
    }
}

/// A buffer is opened in the project where the project has the path, or else from the disk where the
/// path is absolute, and otherwise not at all.
pub proof fn the_project_comes_first(
    file_path: &str,
    in_project: bool,
    absolute: bool,
    r: OpenBuffer,
)
    requires
        call_ensures(open_buffer, (file_path, in_project, absolute), r),
    ensures
        r is InProject <==> in_project,
        r is Local <==> !in_project && absolute,
        !in_project && !absolute ==> (r matches OpenBuffer::Refuse(message) && message@ == "'"@
            + file_path@
            + "' is neither a project-relative path nor absolute. Pass an absolute path or a path beginning with `~/` to read files outside this project."@),
{
}

/// Searching behind the beginning of a text is searching what is left of it.
proof fn search_is_shifted(text: Seq<char>, part: Seq<char>, from: int)
    requires
        0 <= from <= text.len(),
    ensures
        match first_from(text, part, from) {
            Some(i) => first_from(text.skip(from), part, 0) == Some(i - from),
            None => first_from(text.skip(from), part, 0) is None,
        },
{
    let rest = text.skip(from);
    first_from_is_first(text, part, from);
    first_from_is_first(rest, part, 0);
    assert forall|i: int| from <= i implies #[trigger] occurs_at(text, part, i) == occurs_at(
        rest,
        part,
        i - from,
    ) by {
        if i + part.len() <= text.len() {
            assert(rest.subrange(i - from, i - from + part.len()) =~= text.subrange(
                i,
                i + part.len(),
            ));
        }
    }
    match first_from(text, part, from) {
        Some(i) => {
            assert(is_first_from(text, part, from, i));
            assert forall|j: int| 0 <= j < i - from implies !#[trigger] occurs_at(rest, part, j) by {
                assert(occurs_at(text, part, j + from) == occurs_at(rest, part, j));
            }
            assert(is_first_from(rest, part, 0, i - from));
        },
        None => {
            assert forall|j: int| 0 <= j implies !#[trigger] occurs_at(rest, part, j) by {
                assert(occurs_at(text, part, j + from) == occurs_at(rest, part, j));
            }
            assert(absent_from(rest, part, 0));
        },
    }
}

proof fn counting_is_shifted(text: Seq<char>, part: Seq<char>, from: int)
    requires
        0 <= from <= text.len(),
        part.len() > 0,
    ensures
        matches_from(text, part, from) == matches_from(text.skip(from), part, 0),
    decreases text.len() - from,
{
    search_is_shifted(text, part, from);
    first_from_is_first(text, part, from);
    if let Some(i) = first_from(text, part, from) {
        assert(occurs_at(text, part, i));
        let next = i + part.len();
        counting_is_shifted(text, part, next);
        let rest = text.skip(from);
        counting_is_shifted(rest, part, next - from);
        assert(rest.skip(next - from) =~= text.skip(next));
    }
}

/// Occurrences are counted one behind another: the first counts, and then those behind it.
pub proof fn matches_are_counted_one_by_one(
    text: &[char],
    part: &[char],
    rest: &[char],
    n: u64,
    m: u64,
    before: Seq<char>,
)
    requires
        part@.len() > 0,
        call_ensures(count_matches, (text, part), n),
        call_ensures(count_matches, (rest, part), m),
        text@ == before + part@ + rest@,
        forall|head: Seq<char>, tail: Seq<char>|
            text@ == #[trigger] (head + part@ + tail) ==> before.len() <= head.len(),
    ensures
        n == m + 1,
{
    let i = before.len() as int;
    assert(text@.subrange(i, i + part@.len()) =~= part@);
    assert forall|j: int| 0 <= j < i implies !#[trigger] occurs_at(text@, part@, j) by {
        if occurs_at(text@, part@, j) {
            let head = text@.take(j);
            let tail = text@.skip(j + part@.len());
            assert(text@.subrange(j, j + part@.len()) == part@);
            assert(text@ =~= head + text@.subrange(j, j + part@.len()) + tail);
            assert(text@ == head + part@ + tail);
        }
    }
    assert(is_first_from(text@, part@, 0, i));
    first_from_is_first(text@, part@, 0);
    counting_is_shifted(text@, part@, i + part@.len());
    assert(text@.skip(i + part@.len()) =~= rest@);
}

/// What does not stand in a text is counted neither as an occurrence nor as a place.
pub proof fn nothing_is_counted_where_nothing_stands(text: &[char], part: &[char], n: u64, p: u64)
    requires
        part@.len() > 0,
        call_ensures(count_matches, (text, part), n),
        call_ensures(count_places, (text, part), p),
        !stands_in(text@, part@),
    ensures
        n == 0,
        p == 0,
{
    occurring_is_standing(text@, part@);
    places_are_counted(text@, part@);
    first_from_is_first(text@, part@, 0);
    assert(absent_from(text@, part@, 0));
}

proof fn places_behind_first(c: char, rest: Seq<char>, part: Seq<char>, n: int)
    requires
        n >= 0,
    ensures
        places_below(seq![c] + rest, part, n + 1) == places_below(rest, part, n) + (if occurs_at(
            seq![c] + rest,
            part,
            0,
        ) {
            1nat
        } else {
            0nat
        }),
    decreases n,
{
    let text = seq![c] + rest;
    if n > 0 {
        places_behind_first(c, rest, part, n - 1);
        if n + part.len() <= text.len() {
            assert(text.subrange(n, n + part.len()) =~= rest.subrange(n - 1, n - 1 + part.len()));
        }
    } else {
        reveal_with_fuel(places_below, 2);
    }
}

/// Places are counted one by one: a text that begins with the part has one more than the text behind
/// its first character, and any other as many.
pub proof fn places_are_counted_one_by_one(
    text: &[char],
    part: &[char],
    rest: &[char],
    c: char,
    n: u64,
    m: u64,
)
    requires
        part@.len() > 0,
        text@ == seq![c] + rest@,
        call_ensures(count_places, (text, part), n),
        call_ensures(count_places, (rest, part), m),
    ensures
        n == m + (if part@.len() <= text@.len() && text@.take(part@.len() as int) == part@ {
            1int
        } else {
            0int
        }),
{
    places_behind_first(c, rest@, part@, rest@.len() + 1int);
    if part@.len() <= text@.len() {
        assert(text@.subrange(0, part@.len() as int) =~= text@.take(part@.len() as int));
    }
}

/// A text edit is made exactly where the text to replace stands at one place: the bytes of that place
/// are replaced by the new text. Where it stands nowhere or at several places, that is told.
pub proof fn edits_are_made_at_the_one_place(
    file_path: &str,
    old_string: &str,
    new_string: &str,
    text: String,
    chars: &[char],
    part: &[char],
    matched: u64,
    counted: u64,
    action: TextEditAction,
)
    requires
        old_string@.len() > 0,
        chars@ == text@,
        part@ == old_string@,
        call_ensures(count_matches, (chars, part), matched),
        call_ensures(count_places, (chars, part), counted),
        call_ensures(
            apply_text_edit,
            (file_path, old_string, new_string, TextEditEvent::Opened(Ok(text))),
            action,
        ),
    ensures
        counted == 0 <==> !stands_in(text@, old_string@),
        counted == 0 ==> (action matches TextEditAction::Finish(Err(e)) && e@
            == "`old_string` not found in `"@ + file_path@
            + "`. The buffer may differ from what you expected — use `read_buffer` to inspect it."@),
        counted == 1 ==> (action matches TextEditAction::Edit { start, end, line, text: replacement }
            && replacement@ == new_string@ && exists|before: Seq<char>, behind: Seq<char>|
            {
                &&& text@ == #[trigger] (before + old_string@ + behind)
                &&& start == encode_utf8(before).len()
                &&& end == encode_utf8(before + old_string@).len()
                &&& line == before.filter(|c: char| c == '\n').len() as u32
            }),
        counted > 1 ==> (action matches TextEditAction::Finish(Err(e)) && e@
            == "`old_string` appears "@ + decimal(
            if matched > 1 {
                matched as nat
            } else {
                counted as nat
            },
        ) + " times in `"@ + file_path@
            + "`. Provide a larger snippet so the target location is unique."@),
{
    let old = old_string@;
    places_are_counted(text@, old);
    occurring_is_standing(text@, old);
    first_from_is_first(text@, old, 0);
    if counted == 1 {
        let i = first_from(text@, old, 0)->0;
        assert(occurs_at(text@, old, i));
        let before = text@.take(i);
        let behind = text@.skip(i + old.len());
        assert(text@.subrange(i, i + old.len()) == old);
        assert(text@ =~= before + text@.subrange(i, i + old.len()) + behind);
        assert(text@ == before + old + behind);
        assert(before + old =~= text@.take(i + old.len()));
        lengths_are_those_of_utf8(before);
        lengths_are_those_of_utf8(before + old);
        crate::laws::places::line_breaks_are_counted(before);
    }
}

/// What goes wrong with a text edit is told; an empty text to replace is refused whatever happens.
pub proof fn text_edits_go_on_or_tell(
    file_path: &str,
    old_string: &str,
    new_string: &str,
    event: TextEditEvent,
    action: TextEditAction,
)
    requires
        call_ensures(apply_text_edit, (file_path, old_string, new_string, event), action),
    ensures
        old_string@.len() == 0 ==> (action matches TextEditAction::Finish(Err(e)) && e@
            == "old_string must not be empty"@),
        old_string@.len() > 0 ==> {
            &&& (event matches TextEditEvent::PathSearched { found: true } ==> action is OpenBuffer)
            &&& (event matches TextEditEvent::PathSearched { found: false } ==> (
            action matches TextEditAction::Finish(Err(e)) && e@ == "Could not find path '"@ + file_path@
                + "' in project"@))
            &&& (event matches TextEditEvent::Opened(Err(error)) ==> (
            action matches TextEditAction::Finish(Err(e)) && e@ == "Failed to open '"@ + file_path@
                + "': "@ + error@))
            &&& (event matches TextEditEvent::Saved(Err(error)) ==> (
            action matches TextEditAction::Finish(Err(e)) && e@ == "Edit applied in-memory but saving `"@
                + file_path@ + "` failed: "@ + error@))
        },
{
}

/// The value shows the diff: every part of it under its own name.
pub open spec fn shows_diff(
    value: JsonView,
    path: Seq<char>,
    abs_path: Seq<char>,
    line: Option<u32>,
    old_text: Seq<char>,
    new_text: Seq<char>,
) -> bool {
    &&& has_member(value, "path"@, JsonView::Text(path))
    &&& has_member(value, "abs_path"@, JsonView::Text(abs_path))
    &&& has_member(value, "old_text"@, JsonView::Text(old_text))
    &&& has_member(value, "new_text"@, JsonView::Text(new_text))
    &&& match line {
        Some(line) => has_member(value, "line"@, JsonView::Number(decimal(line as nat))),
        None => lacks_member(value, "line"@),
    }
}

proof fn diff_is_shown(diff: BridgeDiff)
    ensures
        shows_diff(
            diff.json(),
            diff.path@,
            diff.abs_path@,
            diff.line,
            diff.old_text@,
            diff.new_text@,
        ),
{
    reveal_strlit("path");
    reveal_strlit("abs_path");
    reveal_strlit("line");
    reveal_strlit("old_text");
    reveal_strlit("new_text");
    assert("path"@.len() == 4 && "abs_path"@.len() == 8 && "line"@.len() == 4);
    assert("old_text"@.len() == 8 && "new_text"@.len() == 8);
    assert("path"@[0] == 'p' && "line"@[0] == 'l');
    assert("abs_path"@[0] == 'a' && "old_text"@[0] == 'o' && "new_text"@[0] == 'n');
    let value = diff.json();
    let members = value->Object_0;
    assert(members[0].0 == "path"@ && members[1].0 == "abs_path"@);
    assert(has_member(value, "path"@, members[0].1));
    assert(has_member(value, "abs_path"@, members[1].1));
    if diff.line is Some {
        assert(members[2].0 == "line"@ && members[3].0 == "old_text"@ && members[4].0 == "new_text"@);
        assert(has_member(value, "line"@, members[2].1));
        assert(has_member(value, "old_text"@, members[3].1));
        assert(has_member(value, "new_text"@, members[4].1));
    } else {
        assert(members.len() == 4);
        assert(members[2].0 == "old_text"@ && members[3].0 == "new_text"@);
        assert(has_member(value, "old_text"@, members[2].1));
        assert(has_member(value, "new_text"@, members[3].1));
    }
}

/// A diff is shown with every part of it under its own name.
pub proof fn diffs_are_shown(diff: &BridgeDiff, r: crate::json::Json)
    requires
        call_ensures(BridgeDiff::to_json, (diff,), r),
    ensures
        shows_diff(
            r.view(),
            diff.path@,
            diff.abs_path@,
            diff.line,
            diff.old_text@,
            diff.new_text@,
        ),
{
    diff_is_shown(*diff);
}

pub(crate) proof fn meta_tells_of_edit(diffs: Seq<BridgeDiff>)
    ensures
        tells_editor(edit_meta(diffs), "kind"@, JsonView::Text("edit"@)),
        tells_editor(edit_meta(diffs), "diffs"@, diffs_json(diffs)),
        diffs_json(diffs) matches JsonView::Array(items) && items.len() == diffs.len() && (forall|i: int|
            0 <= i < diffs.len() ==> shows_diff(
                #[trigger] items[i],
                diffs[i].path@,
                diffs[i].abs_path@,
                diffs[i].line,
                diffs[i].old_text@,
                diffs[i].new_text@,
            )),
{
    reveal_strlit("version");
    reveal_strlit("kind");
    reveal_strlit("diffs");
    assert("version"@.len() == 7 && "kind"@.len() == 4 && "diffs"@.len() == 5);
    let outer = edit_meta(diffs)->Object_0;
    let data = outer[0].1;
    let inner = data->Object_0;
    assert(outer[0] == ("zed_bridge"@, data));
    assert(has_member(edit_meta(diffs), "zed_bridge"@, data));
    assert(inner[0].0 == "version"@ && inner[1].0 == "kind"@ && inner[2].0 == "diffs"@);
    assert(has_member(data, "kind"@, inner[1].1));
    assert(has_member(data, "diffs"@, inner[2].1));
    let items = diffs_json(diffs)->Array_0;
    assert forall|i: int| 0 <= i < diffs.len() implies shows_diff(
        #[trigger] items[i],
        diffs[i].path@,
        diffs[i].abs_path@,
        diffs[i].line,
        diffs[i].old_text@,
        diffs[i].new_text@,
    ) by {
        diff_is_shown(diffs[i]);
    }
}

/// The output of a tool that changed files says so to the editor and shows it every diff, in order;
/// the agent reads the text.
pub proof fn edits_are_shown_to_the_editor(text: String, diffs: Vec<BridgeDiff>, r: ToolOutput)
    requires
        call_ensures(build_edit_output, (text, diffs), r),
    ensures
        r matches ToolOutput::Rich { text: t, meta } && {
            &&& t@ == text@
            &&& tells_editor(meta.view(), "kind"@, JsonView::Text("edit"@))
            &&& exists|items: Seq<JsonView>|
                {
                    &&& #[trigger] tells_editor(meta.view(), "diffs"@, JsonView::Array(items))
                    &&& items.len() == diffs@.len()
                    &&& (forall|i: int|
                        0 <= i < diffs@.len() ==> shows_diff(
                            #[trigger] items[i],
                            diffs@[i].path@,
                            diffs@[i].abs_path@,
                            diffs@[i].line,
                            diffs@[i].old_text@,
                            diffs@[i].new_text@,
                        ))
                }
        },
{
    meta_tells_of_edit(diffs@);
    let items = diffs_json(diffs@)->Array_0;
    assert(tells_editor(r->meta.view(), "diffs"@, JsonView::Array(items)));
}

/// A text edit that was saved is reported, and shown to the editor with its file, its row and the
/// text before and after.
pub proof fn saved_edits_are_reported(
    file_path: &str,
    old_string: &str,
    new_string: &str,
    edit: SavedEdit,
    action: TextEditAction,
)
    requires
        old_string@.len() > 0,
        call_ensures(
            apply_text_edit,
            (file_path, old_string, new_string, TextEditEvent::Saved(Ok(edit))),
            action,
        ),
    ensures
        action matches TextEditAction::Finish(Ok(ToolOutput::Rich { text, meta })) && {
            &&& text@ == "Edit applied to `"@ + file_path@
                + "` and saved to disk. Format-on-save (if configured) has run."@
            &&& tells_editor(meta.view(), "kind"@, JsonView::Text("edit"@))
            &&& exists|item: JsonView|
                {
                    &&& #[trigger] tells_editor(
                        meta.view(),
                        "diffs"@,
                        JsonView::Array(seq![item]),
                    )
                    &&& shows_diff(
                        item,
                        file_path@,
                        if edit.abs_path is Some {
                            (edit.abs_path->0)@
                        } else {
                            Seq::empty()
                        },
                        Some(edit.line),
                        edit.old_text@,
                        edit.new_text@,
                    )
                }
        },
{
    let meta = action->Finish_0->Ok_0->meta.view();
    let diff = choose|diff: BridgeDiff| #[trigger]
        crate::bridge::buffers::is_edit_diff(diff, file_path@, edit) && meta == edit_meta(seq![diff]);
    meta_tells_of_edit(seq![diff]);
    let items = diffs_json(seq![diff])->Array_0;
    assert(items =~= seq![items[0]]);
    assert(tells_editor(meta, "diffs"@, JsonView::Array(seq![items[0]])));
}

} // verus!
