//! Places in files, as the agent reads them.

use vstd::prelude::*;
use vstd::string::*;

use crate::search::utf8_len;
use crate::snapshot::TextSnapshot;
use crate::symbol::{display_of, displayed_line, MAX_LINE_DISPLAY_LEN};
use crate::text::{concat3, concat5, decimal, decimal_text};

verus! {

/// A range of lines in a file, with the first of them for display.
pub struct LocationDisplay {
    pub path: String,
    /// 1-based.
    pub start_line: u32,
    /// 1-based, inclusive.
    pub end_line: u32,
    pub snippet: String,
    pub truncated: bool,
}

impl LocationDisplay {
    /// This is the display of the rows from `start_row` through `end_row` of the file at `path`.
    pub open spec fn shows(
        &self,
        path: Option<String>,
        lines: Seq<Seq<char>>,
        start_row: u32,
        end_row: u32,
    ) -> bool {
        &&& self.path@ == match path {
            Some(path) => path@,
            None => "<untitled>"@,
        }
        &&& self.start_line == start_row + 1
        &&& self.end_line == end_row + 1
        &&& self.snippet@ == displayed_line(lines[start_row as int])
        &&& self.truncated == (utf8_len(lines[start_row as int]) > MAX_LINE_DISPLAY_LEN)
    }

    /// The display of the rows from `start_row` through `end_row` of a buffer.
    pub fn from_location(
        path: Option<String>,
        snapshot: &TextSnapshot,
        start_row: u32,
        end_row: u32,
    ) -> (r: Self)
        requires
            start_row < snapshot.lines().len(),
            end_row < snapshot.lines().len(),
        ensures
            r.shows(path, snapshot.lines(), start_row, end_row),
    {
        let max_row = snapshot.max_row();
        let line_len = snapshot.line_len(start_row);
        LocationDisplay {
            path: match path {
                Some(path) => path,
                None => "<untitled>".to_string(),
            },
            start_line: start_row + 1,
            end_line: end_row + 1,
            snippet: display_of(snapshot.row(start_row)),
            truncated: line_len as usize > MAX_LINE_DISPLAY_LEN,
        }
    }

    /// The place as text: path and lines, and below them the snippet in a code block.
    pub open spec fn display(&self) -> Seq<char> {
        let heading = if self.start_line == self.end_line {
            self.path@ + "#L"@ + decimal(self.start_line as nat)
        } else {
            self.path@ + "#L"@ + decimal(self.start_line as nat) + "-"@ + decimal(
                self.end_line as nat,
            )
        };
        let label = if self.truncated {
            " (truncated)"@
        } else {
            ""@
        };
        heading + label + "\n```\n"@ + self.snippet@ + "\n```"@
    }

    /// Writes the place as text.
    pub fn to_text(&self) -> (r: String)
        ensures
            r@ == self.display(),
    {
        let start = decimal_text(self.start_line as u64);
        let heading = if self.start_line == self.end_line {
            concat3(self.path.as_str(), "#L", start.as_str())
        } else {
            concat5(
                self.path.as_str(),
                "#L",
                start.as_str(),
                "-",
                decimal_text(self.end_line as u64).as_str(),
            )
        };
        let label = if self.truncated {
            " (truncated)"
        } else {
            ""
        };
        concat5(heading.as_str(), label, "\n```\n", self.snippet.as_str(), "\n```")
    }
}

/// The places one below another, each under a heading mark.
pub open spec fn location_list(locations: Seq<LocationDisplay>) -> Seq<char>
    decreases locations.len(),
{
    if locations.len() == 0 {
        Seq::empty()
    } else {
        location_list(locations.drop_last()) + ("\n## "@ + locations.last().display() + "\n"@)
    }
}

/// Writes the places one below another, each under a heading mark.
pub fn list_locations(locations: &Vec<LocationDisplay>) -> (r: String)
    ensures
        r@ == location_list(locations@),
{
    let mut out = String::new();
    let mut i: usize = 0;
    while i < locations.len()
        invariant
            i <= locations.len(),
            out@ == location_list(locations@.take(i as int)),
        decreases locations.len() - i,
    {
        out.append(concat3("\n## ", locations[i].to_text().as_str(), "\n").as_str());
        proof {
            assert(locations@.take(i + 1).drop_last() =~= locations@.take(i as int));
        }
        i = i + 1;
    }
    assert(locations@.take(locations@.len() as int) =~= locations@);
    out
}

} // verus!
