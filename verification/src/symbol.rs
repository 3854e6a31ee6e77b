//! Locating a symbol by file, line and name.

use vstd::prelude::*;

use crate::search::{
    at_most, byte_offset, drop_trailing_spaces, find_from, first_from, first_from_is_first,
    is_first_from, leading_spaces, occurs_at, skip_spaces, slice_of, trimmed_end_len, utf8_len,
    utf8_len_prefix,
};
use crate::snapshot::TextSnapshot;
use crate::text::{
    chars_of, concat3, concat4, concat7, concat8, decimal, decimal_text, text_of,
};

verus! {

/// The number of bytes from which on a line counts as truncated, and the number of characters of
/// it that are shown.
pub const MAX_LINE_DISPLAY_LEN: usize = 200;

/// The part of a line that is shown where nothing was found on it: at most
/// `MAX_LINE_DISPLAY_LEN` characters from the first that is not white space.
pub open spec fn line_preview(line: Seq<char>) -> Seq<char> {
    at_most(skip_spaces(line), MAX_LINE_DISPLAY_LEN as nat)
}

/// A line as it is shown: its preview without the white space at the end.
pub open spec fn displayed_line(line: Seq<char>) -> Seq<char> {
    drop_trailing_spaces(line_preview(line))
}

/// The 0-based row of a 1-based line number; line 0 counts as line 1.
pub open spec fn row_of_line(line: u32) -> int {
    if line == 0 {
        0
    } else {
        line - 1
    }
}

/// The preview of a line.
pub fn preview_of(line: &[char]) -> (r: Vec<char>)
    ensures
        r@ == line_preview(line@),
{
    let start = leading_spaces(line);
    let end = if line.len() - start > MAX_LINE_DISPLAY_LEN {
        start + MAX_LINE_DISPLAY_LEN
    } else {
        line.len()
    };
    let out = slice_of(line, start, end);
    proof {
        let rest = line@.skip(start as int);
        assert(out@ =~= line_preview(line@));
    }
    out
}

/// A line as it is shown.
pub fn display_of(line: &[char]) -> (r: String)
    ensures
        r@ == displayed_line(line@),
{
    let preview = preview_of(line);
    let end = trimmed_end_len(&preview);
    let shown = slice_of(&preview, 0, end);
    assert(shown@ =~= preview@.take(end as int));
    text_of(&shown)
}

/// Finds `needle` among `chars` and gives the byte offset at which its first occurrence begins.
/// An empty needle is found at the beginning.
pub fn find_in_char_iter(chars: &[char], needle: &str) -> (r: Option<usize>)
    requires
        utf8_len(chars@) <= usize::MAX,
    ensures
        match r {
            Some(offset) => exists|i: int|
                #![trigger occurs_at(chars@, needle@, i)]
                {
                    &&& is_first_from(chars@, needle@, 0, i)
                    &&& offset == utf8_len(chars@.take(i))
                },
            None => forall|i: int| !#[trigger] occurs_at(chars@, needle@, i),
        },
        match first_from(chars@, needle@, 0) {
            Some(i) => r == Some(utf8_len(chars@.take(i)) as usize),
            None => r is None,
        },
{
    let needle_chars = chars_of(needle);
    match find_from(chars, &needle_chars, 0) {
        Some(i) => {
            assert(occurs_at(chars@, needle@, i as int));
            Some(byte_offset(chars, i))
        },
        None => None,
    }
}

/// A symbol, named by the file and the 1-based line on which it stands.
#[derive(Clone, Debug)]
pub struct SymbolLocator {
    pub file_path: String,
    pub line: u32,
    pub symbol_name: String,
}

/// Where a symbol stands in its buffer, with the line for display.
pub struct ResolvedSymbol {
    /// 0-based row.
    pub row: u32,
    /// Byte offset in the row.
    pub column: u32,
    pub line_text: String,
    pub truncated: bool,
}

/// What the editor reports while a symbol is being resolved.
pub enum ResolveEvent {
    /// The project was searched for the locator's path.
    PathSearched { found: bool },
    /// The buffer was opened, or could not be.
    Opened(Result<(), String>),
    /// The opened buffer was read.
    Read(TextSnapshot),
}

/// What is to be done next to resolve a symbol.
pub enum ResolveAction {
    /// Open the buffer at the path that was found.
    OpenBuffer,
    /// Lease the buffer for the language servers, then read it.
    AcquireAndRead,
    Finish(Result<ResolvedSymbol, String>),
}

impl SymbolLocator {
    pub fn new(file_path: String, line: u32, symbol_name: String) -> (r: Self)
        ensures
            r.file_path == file_path,
            r.line == line,
            r.symbol_name == symbol_name,
    {
        SymbolLocator { file_path, line, symbol_name }
    }

    /// The answer where the locator's line lies beyond the end of a file with `lines` lines.
    pub open spec fn beyond_end(&self, lines: nat) -> Seq<char> {
        "Line "@ + decimal(self.line as nat) + " is beyond the end of '"@ + self.file_path@
            + "' (file has "@ + decimal(lines) + " lines)"@
    }

    /// The answer where the symbol is not on its line.
    pub open spec fn not_on_line(&self, line: Seq<char>) -> Seq<char> {
        "Could not find symbol '"@ + self.symbol_name@ + "' on line "@ + decimal(self.line as nat)
            + " of '"@ + self.file_path@ + "'. Line content: "@ + line_preview(line)
    }

    /// Where the symbol stands in a buffer of the given rows.
    pub open spec fn locates(&self, lines: Seq<Seq<char>>, r: Result<ResolvedSymbol, String>) -> bool {
        let row = row_of_line(self.line);
        if row >= lines.len() {
            r matches Err(message) && message@ == self.beyond_end(lines.len())
        } else {
            match first_from(lines[row], self.symbol_name@, 0) {
                None => r matches Err(message) && message@ == self.not_on_line(lines[row]),
                Some(i) => {
                    &&& r matches Ok(symbol)
                    &&& symbol.row == row
                    &&& symbol.column == utf8_len(lines[row].take(i))
                    &&& symbol.line_text@ == displayed_line(lines[row])
                    &&& symbol.truncated == (utf8_len(lines[row]) > MAX_LINE_DISPLAY_LEN)
                },
            }
        }
    }

    /// Locates the symbol in a buffer.
    pub fn locate(&self, snapshot: &TextSnapshot) -> (r: Result<ResolvedSymbol, String>)
        ensures
            self.locates(snapshot.lines(), r),
    {
        let row: u32 = if self.line == 0 {
            0
        } else {
            self.line - 1
        };
        let max_row = snapshot.max_row();
        let line_number = decimal_text(self.line as u64);
        if row > max_row {
            let count = decimal_text(max_row as u64 + 1);
            return Err(
                concat7(
                    "Line ",
                    line_number.as_str(),
                    " is beyond the end of '",
                    self.file_path.as_str(),
                    "' (file has ",
                    count.as_str(),
                    " lines)",
                ),
            );
        }
        let line = snapshot.row(row);
        proof {
            first_from_is_first(line@, self.symbol_name@, 0);
        }
        match find_in_char_iter(line, self.symbol_name.as_str()) {
            None => {
                let preview = text_of(&preview_of(line));
                Err(
                    concat8(
                        "Could not find symbol '",
                        self.symbol_name.as_str(),
                        "' on line ",
                        line_number.as_str(),
                        " of '",
                        self.file_path.as_str(),
                        "'. Line content: ",
                        preview.as_str(),
                    ),
                )
            },
            Some(offset) => {
                proof {
                    let i = first_from(line@, self.symbol_name@, 0)->0;
                    utf8_len_prefix(line@, i);
                }
                Ok(
                    ResolvedSymbol {
                        row,
                        column: offset as u32,
                        line_text: display_of(line),
                        truncated: snapshot.line_len(row) as usize > MAX_LINE_DISPLAY_LEN,
                    },
                )
            },
        }
    }

    /// Resolves the symbol step by step: the path is searched for, its buffer is opened, leased and
    /// read, and the symbol is located in it.
    pub fn resolve(&self, event: ResolveEvent) -> (action: ResolveAction)
        ensures
            match event {
                ResolveEvent::PathSearched { found } => if found {
                    action is OpenBuffer
                } else {
                    action matches ResolveAction::Finish(Err(message)) && message@
                        == "Could not find path '"@ + self.file_path@ + "' in project"@
                },
                ResolveEvent::Opened(Ok(_)) => action is AcquireAndRead,
                ResolveEvent::Opened(Err(error)) => action matches ResolveAction::Finish(
                    Err(message),
                ) && message@ == "Failed to open '"@ + self.file_path@ + "': "@ + error@,
                ResolveEvent::Read(snapshot) => action matches ResolveAction::Finish(r)
                    && self.locates(snapshot.lines(), r),
            },
    {
        match event {
            ResolveEvent::PathSearched { found } => if found {
                ResolveAction::OpenBuffer
            } else {
                ResolveAction::Finish(
                    Err(
                        concat3(
                            "Could not find path '",
                            self.file_path.as_str(),
                            "' in project",
                        ),
                    ),
                )
            },
            ResolveEvent::Opened(Ok(_)) => ResolveAction::AcquireAndRead,
            ResolveEvent::Opened(Err(error)) => ResolveAction::Finish(
                Err(
                    concat4(
                        "Failed to open '",
                        self.file_path.as_str(),
                        "': ",
                        error.as_str(),
                    ),
                ),
            ),
            ResolveEvent::Read(snapshot) => ResolveAction::Finish(self.locate(&snapshot)),
        }
    }
}

/// A symbol that was located stands where it is said to: its name begins at the column, which is the
/// first such place on the line.
pub proof fn located_symbols_stand_there(
    locator: SymbolLocator,
    lines: Seq<Seq<char>>,
    symbol: ResolvedSymbol,
)
    requires
        locator.locates(lines, Ok(symbol)),
    ensures
        symbol.row < lines.len(),
        symbol.row == row_of_line(locator.line),
        exists|i: int|
            #![trigger occurs_at(lines[symbol.row as int], locator.symbol_name@, i)]
            {
                &&& is_first_from(lines[symbol.row as int], locator.symbol_name@, 0, i)
                &&& symbol.column == utf8_len(lines[symbol.row as int].take(i))
            },
{
    let line = lines[symbol.row as int];
    first_from_is_first(line, locator.symbol_name@, 0);
    let i = first_from(line, locator.symbol_name@, 0)->0;
    assert(occurs_at(line, locator.symbol_name@, i));
}

} // verus!
