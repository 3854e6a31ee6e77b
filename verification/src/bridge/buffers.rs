//! Tools on the editor's buffers: reading one, and editing one.

use vstd::prelude::*;
use vstd::string::*;

use crate::bridge::calls::{build_edit_output, edit_meta, BridgeDiff, ToolOutput};
use crate::json::{object1, object3, text, Json, JsonView};
use crate::search::{
    byte_offset, count_matches, count_places, find_from, first_from, first_from_is_first,
    matches_from, occurs_at, places, places_are_counted, slice_of, utf8_len, utf8_len_concat,
};
use crate::snapshot::{joined, line_breaks, lines_of, rows_are_the_text, TextSnapshot};
use crate::text::{
    chars_of, concat3, concat4, concat5, concat6, decimal, decimal_text, same_text, text_of,
};

verus! {

/// A path as an agent gives it.
#[derive(Debug)]
pub enum PathForm {
    /// A path below the home directory.
    UnderHome(String),
    /// The home directory itself.
    Home,
    /// A path that is meant as it is written.
    Literal(String),
}

/// Tells whether a path begins at the home directory.
pub fn expand_tilde(file_path: &str) -> (r: PathForm)
    ensures
        if file_path@.len() >= 2 && file_path@.take(2) == "~/"@ {
            r matches PathForm::UnderHome(rest) && rest@ == file_path@.skip(2)
        } else if file_path@ == "~"@ {
            r is Home
        } else {
            r matches PathForm::Literal(path) && path@ == file_path@
        },
{
    let chars = chars_of(file_path);
    proof {
        reveal_strlit("~/");
        if file_path@.len() >= 2 && file_path@[0] == '~' && file_path@[1] == '/' {
            assert(file_path@.take(2) =~= "~/"@);
        }
        if file_path@.len() >= 2 && file_path@.take(2) == "~/"@ {
            assert(file_path@.take(2)[0] == '~' && file_path@.take(2)[1] == '/');
            assert(file_path@[0] == '~' && file_path@[1] == '/');
        }
    }
    if chars.len() >= 2 && chars[0] == '~' && chars[1] == '/' {
        let rest = slice_of(&chars, 2, chars.len());
        assert(rest@ =~= file_path@.skip(2));
        PathForm::UnderHome(text_of(&rest))
    } else if same_text(file_path, "~") {
        PathForm::Home
    } else {
        PathForm::Literal(file_path.to_string())
    }
}

/// Where a buffer is to be opened from.
#[derive(Debug)]
pub enum OpenBuffer {
    /// The project, where the file may be open with edits that are not saved.
    InProject,
    /// The local disk.
    Local,
    /// Nowhere.
    Refuse(String),
}

/// Decides where to open a buffer from, given whether the project has the path and whether it is
/// absolute.
pub fn open_buffer(file_path: &str, in_project: bool, absolute: bool) -> (r: OpenBuffer)
    ensures
        if in_project {
            r is InProject
        } else if absolute {
            r is Local
        } else {
            r matches OpenBuffer::Refuse(message) && message@ == "'"@ + file_path@
                + "' is neither a project-relative path nor absolute. Pass an absolute path or a path beginning with `~/` to read files outside this project."@
        },
{
    if in_project {
        OpenBuffer::InProject
    } else if absolute {
        OpenBuffer::Local
    } else {
        OpenBuffer::Refuse(
            concat3(
                "'",
                file_path,
                "' is neither a project-relative path nor absolute. Pass an absolute path or a path beginning with `~/` to read files outside this project.",
            ),
        )
    }
}

/// The row that a 1-based line number stands for, or `default` where none is given; never beyond
/// `max`.
pub open spec fn row_bound(line: Option<u32>, default: int, max: int) -> int {
    let row = match line {
        Some(line) => if line == 0 {
            0
        } else {
            line - 1
        },
        None => default,
    };
    if row > max {
        max
    } else {
        row
    }
}

/// The first row that is read: the smaller of the two bounds.
pub open spec fn first_row(start_line: Option<u32>, end_line: Option<u32>, max: int) -> int {
    let start = row_bound(start_line, 0, max);
    let end = row_bound(end_line, max, max);
    if start > end {
        end
    } else {
        start
    }
}

/// The last row that is read: the larger of the two bounds.
pub open spec fn last_row(start_line: Option<u32>, end_line: Option<u32>, max: int) -> int {
    let start = row_bound(start_line, 0, max);
    let end = row_bound(end_line, max, max);
    if start > end {
        start
    } else {
        end
    }
}

/// The row that a 1-based line number stands for.
fn bounded_row(line: Option<u32>, default: u32, max: u32) -> (r: u32)
    ensures
        r == row_bound(line, default as int, max as int),
        r <= max,
{
    let row = match line {
        Some(line) => if line == 0 {
            0
        } else {
            line - 1
        },
        None => default,
    };
    if row > max {
        max
    } else {
        row
    }
}

/// A part of a buffer.
#[derive(Debug)]
pub struct Excerpt {
    pub text: String,
    /// The number of lines in the whole buffer.
    pub total_lines: u32,
    pub start_row: u32,
}

impl Excerpt {
    /// The excerpt holds the lines from `start_line` to `end_line` of the buffer.
    pub open spec fn holds(
        &self,
        lines: Seq<Seq<char>>,
        start_line: Option<u32>,
        end_line: Option<u32>,
    ) -> bool {
        let max = lines.len() - 1;
        let first = first_row(start_line, end_line, max);
        let last = last_row(start_line, end_line, max);
        &&& self.text@ == joined(lines.subrange(first, last + 1))
        &&& self.total_lines == lines.len()
        &&& self.start_row == first
    }

    /// Takes the lines from `start_line` to `end_line` out of a buffer.
    pub fn of(snapshot: &TextSnapshot, start_line: Option<u32>, end_line: Option<u32>) -> (r: Self)
        ensures
            r.holds(snapshot.lines(), start_line, end_line),
    {
        let max = snapshot.max_row();
        let start = bounded_row(start_line, 0, max);
        let end = bounded_row(end_line, max, max);
        let (first, last) = if start > end {
            (end, start)
        } else {
            (start, end)
        };
        Excerpt {
            text: snapshot.rows_text(first, last),
            total_lines: max + 1,
            start_row: first,
        }
    }
}

/// What the editor reports while a buffer is being read.
pub enum ReadBufferEvent {
    /// The buffer was opened, or could not be.
    Opened(Result<TextSnapshot, String>),
    /// The excerpt was set as a code block.
    Rendered { excerpt: Excerpt, code_block: String, dirty: bool, abs_path: Option<String> },
}

/// What is to be done next to read a buffer.
pub enum ReadBufferAction {
    /// Set the excerpt as a code block, tagged with the path of the file.
    Render(Excerpt),
    Finish(Result<ToolOutput, String>),
}

/// The data that go with what was read of a buffer.
pub open spec fn location_meta(path: Seq<char>, abs_path: Seq<char>, row: nat) -> JsonView {
    JsonView::Object(
        seq![
            (
                "zed_bridge"@,
                JsonView::Object(
                    seq![
                        ("path"@, JsonView::Text(path)),
                        ("abs_path"@, JsonView::Text(abs_path)),
                        ("line"@, JsonView::Number(decimal(row))),
                    ],
                ),
            ),
        ],
    )
}

/// A path, empty where there is none.
pub open spec fn path_or_empty(path: Option<String>) -> Seq<char> {
    match path {
        Some(path) => path@,
        None => Seq::empty(),
    }
}

/// A path, empty where there is none.
fn unwrap_path(path: Option<String>) -> (r: String)
    ensures
        r@ == path_or_empty(path),
{
    match path {
        Some(path) => path,
        None => String::new(),
    }
}

/// The remark on a buffer with edits that are not saved.
pub open spec fn dirty_note(dirty: bool) -> Seq<char> {
    if dirty {
        "(buffer is dirty — shown content includes unsaved user edits)\n"@
    } else {
        ""@
    }
}

/// Reads a buffer, step by step.
pub fn read_buffer(
    file_path: &str,
    start_line: Option<u32>,
    end_line: Option<u32>,
    event: ReadBufferEvent,
) -> (action: ReadBufferAction)
    ensures
        match event {
            ReadBufferEvent::Opened(Err(error)) => {
                &&& action matches ReadBufferAction::Finish(Err(message))
                &&& message@ == "Failed to open '"@ + file_path@ + "': "@ + error@
            },
            ReadBufferEvent::Opened(Ok(snapshot)) => {
                &&& action matches ReadBufferAction::Render(excerpt)
                &&& excerpt.holds(snapshot.lines(), start_line, end_line)
            },
            ReadBufferEvent::Rendered { excerpt, code_block, dirty, abs_path } => {
                &&& action matches ReadBufferAction::Finish(Ok(ToolOutput::Rich { text, meta }))
                &&& text@ == dirty_note(dirty) + file_path@ + " ("@ + decimal(
                    excerpt.total_lines as nat,
                ) + " lines)\n"@ + code_block@
                &&& meta.view() == location_meta(
                    file_path@,
                    path_or_empty(abs_path),
                    excerpt.start_row as nat,
                )
            },
        },
{
    match event {
        ReadBufferEvent::Opened(Err(error)) => ReadBufferAction::Finish(
            Err(concat4("Failed to open '", file_path, "': ", error.as_str())),
        ),
        ReadBufferEvent::Opened(Ok(snapshot)) => ReadBufferAction::Render(
            Excerpt::of(&snapshot, start_line, end_line),
        ),
        ReadBufferEvent::Rendered { excerpt, code_block, dirty, abs_path } => {
            let note = if dirty {
                "(buffer is dirty — shown content includes unsaved user edits)\n"
            } else {
                ""
            };
            let output = concat6(
                note,
                file_path,
                " (",
                decimal_text(excerpt.total_lines as u64).as_str(),
                " lines)\n",
                code_block.as_str(),
            );
            let meta = object1(
                "zed_bridge",
                object3(
                    "path",
                    text(file_path),
                    "abs_path",
                    Json::Text(unwrap_path(abs_path)),
                    "line",
                    Json::Number(decimal_text(excerpt.start_row as u64)),
                ),
            );
            ReadBufferAction::Finish(Ok(ToolOutput::Rich { text: output, meta }))
        },
    }
}

/// An edit that was saved.
pub struct SavedEdit {
    /// The row at which the edit began.
    pub line: u32,
    pub abs_path: Option<String>,
    pub old_text: String,
    pub new_text: String,
}

/// What the editor reports while a text edit is being applied.
pub enum TextEditEvent {
    /// The project was searched for the path.
    PathSearched { found: bool },
    /// The buffer was opened and holds the text, or could not be opened.
    Opened(Result<String, String>),
    /// The edit was made and saved, or could not be saved.
    Saved(Result<SavedEdit, String>),
}

/// What is to be done next to apply a text edit.
pub enum TextEditAction {
    OpenBuffer,
    /// Replace the bytes from `start` to `end`, which begin on the row `line`, by `text`; then save.
    Edit { start: usize, end: usize, line: u32, text: String },
    Finish(Result<ToolOutput, String>),
}

impl TextEditAction {
    /// The edit fails with `message`.
    pub open spec fn fails_with(&self, message: Seq<char>) -> bool {
        self matches TextEditAction::Finish(Err(error)) && error@ == message
    }

    /// The one place at which `old_string` stands in `text`, at the character index `i`, is to be
    /// replaced by `new_string`.
    pub open spec fn edits(
        &self,
        text: Seq<char>,
        old_string: Seq<char>,
        new_string: Seq<char>,
        i: int,
    ) -> bool {
        &&& self matches TextEditAction::Edit { start, end, line, text: replacement }
        &&& replacement@ == new_string
        &&& start == utf8_len(text.take(i))
        &&& end == utf8_len(text.take(i + old_string.len()))
        &&& line == line_breaks(text.take(i)) as u32
    }
}

/// The diff of an edit.
pub open spec fn is_edit_diff(diff: BridgeDiff, file_path: Seq<char>, edit: SavedEdit) -> bool {
    &&& diff.path@ == file_path
    &&& diff.abs_path@ == path_or_empty(edit.abs_path)
    &&& diff.line == Some(edit.line)
    &&& diff.old_text == edit.old_text
    &&& diff.new_text == edit.new_text
}

/// How often `pattern` is said to appear in `text`: the occurrences counted one behind another, or
/// where that finds only one though they overlap, the places at which it stands.
pub open spec fn times(text: Seq<char>, pattern: Seq<char>) -> nat {
    if matches_from(text, pattern, 0) > 1 {
        matches_from(text, pattern, 0)
    } else {
        places(text, pattern)
    }
}

/// Counts how often `pattern` is said to appear in `text`.
fn count_times(text: &[char], pattern: &[char]) -> (r: u64)
    requires
        pattern.len() > 0,
    ensures
        r == times(text@, pattern@),
{
    let matches = count_matches(text, pattern);
    if matches > 1 {
        matches
    } else {
        count_places(text, pattern)
    }
}

/// Counts the line breaks in a text.
fn count_breaks(text: &[char]) -> (r: usize)
    ensures
        r == line_breaks(text@),
{
    let mut count: usize = 0;
    let mut i: usize = 0;
    while i < text.len()
        invariant
            count <= i <= text.len(),
            count == line_breaks(text@.take(i as int)),
        decreases text.len() - i,
    {
        proof {
            assert(text@.take(i + 1).drop_last() =~= text@.take(i as int));
        }
        if text[i] == '\n' {
            count = count + 1;
        }
        i = i + 1;
    }
    assert(text@.take(text@.len() as int) =~= text@);
    count
}

/// Applies a text edit, step by step: `old_string` has to stand in the buffer exactly once.
pub fn apply_text_edit(
    file_path: &str,
    old_string: &str,
    new_string: &str,
    event: TextEditEvent,
) -> (action: TextEditAction)
    requires
        event matches TextEditEvent::Opened(Ok(text)) ==> utf8_len(text@) <= usize::MAX,
    ensures
        if old_string@.len() == 0 {
            action.fails_with("old_string must not be empty"@)
        } else {
            match event {
                TextEditEvent::PathSearched { found } => if found {
                    action is OpenBuffer
                } else {
                    action.fails_with("Could not find path '"@ + file_path@ + "' in project"@)
                },
                TextEditEvent::Opened(Err(error)) => action.fails_with(
                    "Failed to open '"@ + file_path@ + "': "@ + error@,
                ),
                TextEditEvent::Opened(Ok(text)) => if places(text@, old_string@) == 0 {
                    action.fails_with(
                        "`old_string` not found in `"@ + file_path@
                            + "`. The buffer may differ from what you expected — use `read_buffer` to inspect it."@,
                    )
                } else if places(text@, old_string@) == 1 {
                    first_from(text@, old_string@, 0) matches Some(i) && action.edits(
                        text@,
                        old_string@,
                        new_string@,
                        i,
                    )
                } else {
                    action.fails_with(
                        "`old_string` appears "@ + decimal(times(text@, old_string@))
                            + " times in `"@ + file_path@
                            + "`. Provide a larger snippet so the target location is unique."@,
                    )
                },
                TextEditEvent::Saved(Err(error)) => action.fails_with(
                    "Edit applied in-memory but saving `"@ + file_path@ + "` failed: "@ + error@,
                ),
                TextEditEvent::Saved(Ok(edit)) => {
                    &&& action matches TextEditAction::Finish(Ok(ToolOutput::Rich { text, meta }))
                    &&& text@ == "Edit applied to `"@ + file_path@
                        + "` and saved to disk. Format-on-save (if configured) has run."@
                    &&& exists|diff: BridgeDiff| #[trigger]
                        is_edit_diff(diff, file_path@, edit) && meta.view() == edit_meta(seq![diff])
                },
            }
        },
{
    let pattern = chars_of(old_string);
    if pattern.is_empty() {
        return TextEditAction::Finish(Err("old_string must not be empty".to_string()));
    }
    match event {
        TextEditEvent::PathSearched { found } => if found {
            TextEditAction::OpenBuffer
        } else {
            TextEditAction::Finish(
                Err(concat3("Could not find path '", file_path, "' in project")),
            )
        },
        TextEditEvent::Opened(Err(error)) => TextEditAction::Finish(
            Err(concat4("Failed to open '", file_path, "': ", error.as_str())),
        ),
        TextEditEvent::Opened(Ok(text)) => {
            let chars = chars_of(text.as_str());
            let count = count_places(&chars, &pattern);
            proof {
                places_are_counted(text@, old_string@);
            }
            if count == 0 {
                return TextEditAction::Finish(
                    Err(
                        concat3(
                            "`old_string` not found in `",
                            file_path,
                            "`. The buffer may differ from what you expected — use `read_buffer` to inspect it.",
                        ),
                    ),
                );
            }
            if count > 1 {
                return TextEditAction::Finish(
                    Err(
                        concat5(
                            "`old_string` appears ",
                            decimal_text(count_times(&chars, &pattern)).as_str(),
                            " times in `",
                            file_path,
                            "`. Provide a larger snippet so the target location is unique.",
                        ),
                    ),
                );
            }
            match find_from(&chars, &pattern, 0) {
                Some(i) => {
                    assert(occurs_at(text@, old_string@, i as int));
                    assert(i + pattern.len() <= chars.len());
                    let start = byte_offset(&chars, i);
                    let end = byte_offset(&chars, i + pattern.len());
                    let before = slice_of(&chars, 0, i);
                    assert(before@ =~= text@.take(i as int));
                    #[verifier::truncate]
                    let line = count_breaks(&before) as u32;
                    TextEditAction::Edit { start, end, line, text: new_string.to_string() }
                },
                None => {
                    proof {
                        let at = choose|at: int| #[trigger] occurs_at(text@, old_string@, at);
                        assert(occurs_at(text@, old_string@, at));
                        assert(false);
                    }
                    TextEditAction::OpenBuffer
                },
            }
        },
        TextEditEvent::Saved(Err(error)) => TextEditAction::Finish(
            Err(
                concat4(
                    "Edit applied in-memory but saving `",
                    file_path,
                    "` failed: ",
                    error.as_str(),
                ),
            ),
        ),
        TextEditEvent::Saved(Ok(edit)) => {
            let ghost saved = edit;
            let summary = concat3(
                "Edit applied to `",
                file_path,
                "` and saved to disk. Format-on-save (if configured) has run.",
            );
            let diff = BridgeDiff {
                path: file_path.to_string(),
                abs_path: unwrap_path(edit.abs_path),
                line: Some(edit.line),
                old_text: edit.old_text,
                new_text: edit.new_text,
            };
            let ghost shown = diff;
            let mut diffs: Vec<BridgeDiff> = Vec::new();
            diffs.push(diff);
            assert(diffs@ =~= seq![shown]);
            assert(is_edit_diff(shown, file_path@, saved));
            TextEditAction::Finish(Ok(build_edit_output(summary, diffs)))
        },
    }
}

/// Without a range the whole buffer is read, and where both bounds are given their order does not
/// matter. Whatever the bounds are, what is read are rows of the buffer.
pub proof fn excerpts_are_rows(start_line: Option<u32>, end_line: Option<u32>, max: int)
    requires
        max >= 0,
    ensures
        0 <= first_row(start_line, end_line, max) <= last_row(start_line, end_line, max) <= max,
        first_row(None, None, max) == 0,
        last_row(None, None, max) == max,
        start_line is Some && end_line is Some ==> first_row(start_line, end_line, max) == first_row(
            end_line,
            start_line,
            max,
        ) && last_row(start_line, end_line, max) == last_row(end_line, start_line, max),
        start_line matches Some(s) ==> end_line matches Some(e) ==> 1 <= s <= e <= max + 1
            ==> first_row(start_line, end_line, max) == s - 1 && last_row(start_line, end_line, max)
            == e - 1,
{
}

/// Reading a buffer without a range gives its text.
pub proof fn whole_buffer_is_read(text: Seq<char>, excerpt: Excerpt)
    requires
        excerpt.holds(lines_of(text), None, None),
    ensures
        excerpt.text@ == text,
        excerpt.start_row == 0,
{
    rows_are_the_text(text);
    assert(lines_of(text).subrange(0, lines_of(text).len() as int) =~= lines_of(text));
}

/// An edit is made only where the text to replace stands at one place and no other. The bytes that
/// are replaced are those of that text, and the edit stands on the same row afterwards.
pub proof fn edits_are_unambiguous(text: Seq<char>, old_string: Seq<char>, new_string: Seq<char>)
    requires
        old_string.len() > 0,
        places(text, old_string) == 1,
    ensures
        first_from(text, old_string, 0) matches Some(i) && {
            let after = text.take(i) + new_string + text.skip(i + old_string.len());
            &&& forall|j: int| #[trigger] occurs_at(text, old_string, j) ==> j == i
            &&& text == text.take(i) + old_string + text.skip(i + old_string.len())
            &&& utf8_len(text.take(i + old_string.len())) == utf8_len(text.take(i)) + utf8_len(
                old_string,
            )
            &&& line_breaks(after.take(i)) == line_breaks(text.take(i))
        },
{
    places_are_counted(text, old_string);
    first_from_is_first(text, old_string, 0);
    let at = choose|at: int| #[trigger] occurs_at(text, old_string, at);
    assert(occurs_at(text, old_string, at));
    let i = first_from(text, old_string, 0)->0;
    let after = text.take(i) + new_string + text.skip(i + old_string.len());
    assert(text.take(i + old_string.len()) =~= text.take(i) + text.subrange(
        i,
        i + old_string.len(),
    ));
    assert(text =~= text.take(i) + old_string + text.skip(i + old_string.len())) by {
        assert(text.subrange(i, i + old_string.len()) == old_string);
        assert(text =~= text.take(i) + text.subrange(i, i + old_string.len()) + text.skip(
            i + old_string.len(),
        ));
    }
    utf8_len_concat(text.take(i), old_string);
    assert(after.take(i) =~= text.take(i));
}

} // verus!
