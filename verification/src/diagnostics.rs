//! Diagnostics of a file or of the whole project.

use vstd::prelude::*;
use vstd::string::*;

use crate::text::{
    ascii_lower, ascii_lowercase, concat2, concat3, concat4, concat6, debug_text,
    decimal, decimal_text, quoted, same_text,
};

verus! {

/// How severe a diagnostic is. A language server may send a number that has no name.
#[derive(Clone, Copy, Debug, PartialEq, Eq, Structural)]
pub enum DiagnosticSeverity {
    Error,
    Warning,
    Information,
    Hint,
    Unknown,
}

/// The rank of a severity: the lower, the more severe.
pub open spec fn rank(severity: DiagnosticSeverity) -> u8 {
    match severity {
        DiagnosticSeverity::Error => 0,
        DiagnosticSeverity::Warning => 1,
        DiagnosticSeverity::Information => 2,
        DiagnosticSeverity::Hint => 3,
        DiagnosticSeverity::Unknown => u8::MAX,
    }
}

/// The name of a severity, where it has one.
pub open spec fn label(severity: DiagnosticSeverity) -> Option<Seq<char>> {
    match severity {
        DiagnosticSeverity::Error => Some("error"@),
        DiagnosticSeverity::Warning => Some("warning"@),
        DiagnosticSeverity::Information => Some("information"@),
        DiagnosticSeverity::Hint => Some("hint"@),
        DiagnosticSeverity::Unknown => None,
    }
}

/// The severity that a name stands for, in any mixture of cases.
pub open spec fn severity_named(name: Seq<char>) -> Option<DiagnosticSeverity> {
    let name = name.map_values(|c: char| ascii_lower(c));
    if name == "error"@ {
        Some(DiagnosticSeverity::Error)
    } else if name == "warning"@ {
        Some(DiagnosticSeverity::Warning)
    } else if name == "information"@ || name == "info"@ {
        Some(DiagnosticSeverity::Information)
    } else if name == "hint"@ {
        Some(DiagnosticSeverity::Hint)
    } else {
        None
    }
}

/// The answer to a name that stands for no severity, which is shown in quotes.
pub open spec fn severity_refusal(shown: Seq<char>) -> Seq<char> {
    "invalid min_severity "@ + shown + "; expected one of: error, warning, information, hint"@
}

/// The answer to a name that stands for no severity.
pub open spec fn invalid_severity(name: Seq<char>) -> Seq<char> {
    severity_refusal(quoted(name.map_values(|c: char| ascii_lower(c))))
}

/// Answers a name that stands for no severity, given how it is shown.
pub fn refuse_severity(shown: &str) -> (r: String)
    ensures
        r@ == severity_refusal(shown@),
{
    concat3(
        "invalid min_severity ",
        shown,
        "; expected one of: error, warning, information, hint",
    )
}

/// Reads the least severity that is to be reported; without a name it is `Warning`.
pub fn parse_min_severity(min_severity: Option<&str>) -> (r: Result<DiagnosticSeverity, String>)
    ensures
        match min_severity {
            None => r == Ok::<DiagnosticSeverity, String>(DiagnosticSeverity::Warning),
            Some(name) => match severity_named(name@) {
                Some(severity) => r == Ok::<DiagnosticSeverity, String>(severity),
                None => r matches Err(message) && message@ == invalid_severity(name@),
            },
        },
{
    match min_severity {
        None => Ok(DiagnosticSeverity::Warning),
        Some(name) => {
            let lower = ascii_lowercase(name);
            if same_text(lower.as_str(), "error") {
                Ok(DiagnosticSeverity::Error)
            } else if same_text(lower.as_str(), "warning") {
                Ok(DiagnosticSeverity::Warning)
            } else if same_text(lower.as_str(), "information") || same_text(lower.as_str(), "info") {
                Ok(DiagnosticSeverity::Information)
            } else if same_text(lower.as_str(), "hint") {
                Ok(DiagnosticSeverity::Hint)
            } else {
                Err(refuse_severity(debug_text(lower.as_str()).as_str()))
            }
        },
    }
}

/// The rank of a severity: the lower, the more severe. A diagnostic is reported when its rank is
/// not above that of the least severity asked for.
pub fn severity_rank(severity: DiagnosticSeverity) -> (r: u8)
    ensures
        r == rank(severity),
{
    match severity {
        DiagnosticSeverity::Error => 0,
        DiagnosticSeverity::Warning => 1,
        DiagnosticSeverity::Information => 2,
        DiagnosticSeverity::Hint => 3,
        DiagnosticSeverity::Unknown => u8::MAX,
    }
}

/// The name of a severity, where it has one.
pub fn severity_label(severity: DiagnosticSeverity) -> (r: Option<&'static str>)
    ensures
        match label(severity) {
            Some(name) => r matches Some(n) && n@ == name,
            None => r is None,
        },
{
    match severity {
        DiagnosticSeverity::Error => Some("error"),
        DiagnosticSeverity::Warning => Some("warning"),
        DiagnosticSeverity::Information => Some("information"),
        DiagnosticSeverity::Hint => Some("hint"),
        DiagnosticSeverity::Unknown => None,
    }
}

/// What is said of how fresh diagnostics are.
pub open spec fn freshness(refreshed: bool) -> Seq<char> {
    if refreshed {
        "Diagnostics successfully refreshed."@
    } else {
        "Failed to refresh diagnostics. Diagnostics may be stale."@
    }
}

/// What is said of how fresh diagnostics are.
pub fn diagnostics_freshness_message(refreshed: bool) -> (r: &'static str)
    ensures
        r@ == freshness(refreshed),
{
    if refreshed {
        "Diagnostics successfully refreshed."
    } else {
        "Failed to refresh diagnostics. Diagnostics may be stale."
    }
}

/// One entry of a group of diagnostics.
pub struct Diagnostic {
    pub severity: DiagnosticSeverity,
    /// 0-based row at which it begins.
    pub row: u32,
    pub message: String,
}

/// Diagnostics that belong together. The primary one stands for the group.
pub struct DiagnosticGroup {
    pub entries: Vec<Diagnostic>,
    /// Where the primary entry stands among them.
    pub primary_ix: usize,
}

impl DiagnosticGroup {
    /// The primary entry is there.
    pub open spec fn has_primary(&self) -> bool {
        self.primary_ix < self.entries@.len()
    }

    /// The primary entry.
    pub open spec fn primary(&self) -> Diagnostic {
        self.entries@[self.primary_ix as int]
    }
}

/// Every group has its primary entry.
pub open spec fn have_primaries(groups: Seq<DiagnosticGroup>) -> bool {
    forall|i: int| 0 <= i < groups.len() ==> (#[trigger] groups[i]).has_primary()
}

/// The primary entries of the groups, in order.
pub open spec fn primaries(groups: Seq<DiagnosticGroup>) -> Seq<Diagnostic> {
    groups.map_values(|group: DiagnosticGroup| group.primary())
}

/// A diagnostic is reported where its severity has a name and is not below the least asked for.
pub open spec fn is_reported(diagnostic: Diagnostic, min_severity: DiagnosticSeverity) -> bool {
    rank(diagnostic.severity) <= rank(min_severity) && label(diagnostic.severity) is Some
}

/// The line that reports a diagnostic whose severity has a name.
pub open spec fn report_line(diagnostic: Diagnostic) -> Seq<char> {
    label(diagnostic.severity)->0 + " at line "@ + decimal((diagnostic.row + 1) as nat) + ": "@
        + diagnostic.message@ + "\n"@
}

/// The diagnostics that are reported, one to a line.
pub open spec fn report(diagnostics: Seq<Diagnostic>, min_severity: DiagnosticSeverity) -> Seq<char>
    decreases diagnostics.len(),
{
    if diagnostics.len() == 0 {
        Seq::empty()
    } else {
        let before = report(diagnostics.drop_last(), min_severity);
        let last = diagnostics.last();
        if is_reported(last, min_severity) {
            before + report_line(last)
        } else {
            before
        }
    }
}

/// The report on a file, given whether it is fresh.
pub open spec fn file_report(
    diagnostics: Seq<Diagnostic>,
    min_severity: DiagnosticSeverity,
    refreshed: bool,
) -> Seq<char> {
    let lines = report(diagnostics, min_severity);
    if lines.len() == 0 {
        freshness(refreshed) + "\n\nFile doesn't have any diagnostics at `"@ + (match label(
            min_severity,
        ) {
            Some(name) => name,
            None => "warning"@,
        }) + "` severity or higher!"@
    } else {
        freshness(refreshed) + "\n\n"@ + lines
    }
}

/// Writes the report on a file, given its groups of diagnostics.
pub fn write_file_report(
    groups: &Vec<DiagnosticGroup>,
    min_severity: DiagnosticSeverity,
    refreshed: bool,
) -> (r: String)
    requires
        have_primaries(groups@),
    ensures
        r@ == file_report(primaries(groups@), min_severity, refreshed),
{
    let ghost entries = primaries(groups@);
    let mut lines = String::new();
    let mut i: usize = 0;
    while i < groups.len()
        invariant
            i <= groups.len(),
            have_primaries(groups@),
            entries == primaries(groups@),
            lines@ == report(entries.take(i as int), min_severity),
        decreases groups.len() - i,
    {
        proof {
            assert(groups@[i as int].has_primary());
            assert(entries.take(i + 1).drop_last() =~= entries.take(i as int));
        }
        let entry = &groups[i].entries[groups[i].primary_ix];
        if severity_rank(entry.severity) <= severity_rank(min_severity) {
            if let Some(severity) = severity_label(entry.severity) {
                let line = concat6(
                    severity,
                    " at line ",
                    decimal_text(entry.row as u64 + 1).as_str(),
                    ": ",
                    entry.message.as_str(),
                    "\n",
                );
                assert(line@ == report_line(entries[i as int]));
                lines.append(line.as_str());
            }
        }
        i = i + 1;
    }
    assert(entries.take(entries.len() as int) =~= entries);
    let fresh = diagnostics_freshness_message(refreshed);
    if lines.as_str().is_empty() {
        let name = match severity_label(min_severity) {
            Some(name) => name,
            None => "warning",
        };
        concat4(
            fresh,
            "\n\nFile doesn't have any diagnostics at `",
            name,
            "` severity or higher!",
        )
    } else {
        concat3(fresh, "\n\n", lines.as_str())
    }
}

/// What the editor reports while diagnostics are being fetched.
pub enum DiagnosticsEvent {
    /// The agent asks for diagnostics.
    Requested,
    /// The project was searched for the path.
    PathSearched { found: bool },
    /// The buffer was opened, or could not be.
    Opened(Result<(), String>),
    /// The diagnostics of the buffer were pulled, or could not be; `running` is whether a language
    /// server is running for it, and `groups` are the diagnostics at hand.
    FilePulled { refreshed: bool, running: bool, groups: Vec<DiagnosticGroup> },
    /// The diagnostics of the workspace were pulled, or could not be; `summaries` are those at hand.
    ProjectPulled { refreshed: bool, summaries: Vec<FileSummary> },
}

impl DiagnosticsEvent {
    /// The diagnostics can be reported on: where a server is running, every group has its primary
    /// entry.
    pub open spec fn can_be_reported(&self) -> bool {
        self matches DiagnosticsEvent::FilePulled { running, groups, .. } ==> *running
            ==> have_primaries(groups@)
    }
}

/// What is to be done next to fetch diagnostics.
pub enum DiagnosticsAction {
    /// Search the project for the path.
    SearchPath,
    /// Open the buffer at the path that was found.
    OpenBuffer,
    /// Lease the buffer for the language servers, pull its diagnostics, and read them.
    AcquireAndPull,
    /// Pull the diagnostics of the workspace, and read the summaries.
    PullProject,
    Finish(Result<String, String>),
}

impl DiagnosticsAction {
    /// The request ends with `text`.
    pub open spec fn ends_with(&self, text: Seq<char>) -> bool {
        self matches DiagnosticsAction::Finish(Ok(t)) && t@ == text
    }

    /// The request fails with `message`.
    pub open spec fn fails_with(&self, message: Seq<char>) -> bool {
        self matches DiagnosticsAction::Finish(Err(error)) && error@ == message
    }
}

/// How many errors and warnings a file has.
pub struct FileSummary {
    /// The file's absolute path; `None` where its worktree is gone.
    pub path: Option<String>,
    pub error_count: usize,
    pub warning_count: usize,
}

/// A file is listed where it has errors or warnings and its worktree is there.
pub open spec fn is_listed(summary: FileSummary) -> bool {
    (summary.error_count > 0 || summary.warning_count > 0) && summary.path is Some
}

/// The files with errors or warnings, one to a line.
pub open spec fn summary_list(summaries: Seq<FileSummary>) -> Seq<char>
    decreases summaries.len(),
{
    if summaries.len() == 0 {
        Seq::empty()
    } else {
        let before = summary_list(summaries.drop_last());
        let last = summaries.last();
        if is_listed(last) {
            before + ((last.path->0)@ + ": "@ + decimal(last.error_count as nat) + " error(s), "@
                + decimal(last.warning_count as nat) + " warning(s)\n"@)
        } else {
            before
        }
    }
}

/// Some file is listed.
pub open spec fn any_listed(summaries: Seq<FileSummary>) -> bool {
    exists|i: int| 0 <= i < summaries.len() && is_listed(#[trigger] summaries[i])
}

/// The report on the project, given whether it is fresh.
pub open spec fn project_report(summaries: Seq<FileSummary>, refreshed: bool) -> Seq<char> {
    freshness(refreshed) + if any_listed(summaries) {
        "\n\n"@ + summary_list(summaries)
    } else if !refreshed {
        "\n\nNo errors or warnings reported. This may mean no language server is currently running for this project's files."@
    } else {
        "\n\nNo errors or warnings found in the project."@
    }
}

/// Writes the report on the project.
pub fn diagnostics_for_project(summaries: &Vec<FileSummary>, refreshed: bool) -> (r: String)
    ensures
        r@ == project_report(summaries@, refreshed),
{
    let mut lines = String::new();
    let mut listed = false;
    let mut i: usize = 0;
    while i < summaries.len()
        invariant
            i <= summaries.len(),
            lines@ == summary_list(summaries@.take(i as int)),
            listed == exists|k: int| 0 <= k < i && is_listed(#[trigger] summaries@[k]),
        decreases summaries.len() - i,
    {
        proof {
            assert(summaries@.take(i + 1).drop_last() =~= summaries@.take(i as int));
        }
        let summary = &summaries[i];
        if summary.error_count > 0 || summary.warning_count > 0 {
            if let Some(path) = &summary.path {
                listed = true;
                lines.append(
                    concat6(
                        path.as_str(),
                        ": ",
                        decimal_text(summary.error_count as u64).as_str(),
                        " error(s), ",
                        decimal_text(summary.warning_count as u64).as_str(),
                        " warning(s)\n",
                    ).as_str(),
                );
                assert(is_listed(summaries@[i as int]));
            }
        }
        i = i + 1;
    }
    assert(summaries@.take(summaries@.len() as int) =~= summaries@);
    let fresh = diagnostics_freshness_message(refreshed);
    let rest = if listed {
        concat2("\n\n", lines.as_str())
    } else if !refreshed {
        "\n\nNo errors or warnings reported. This may mean no language server is currently running for this project's files.".to_string()
    } else {
        "\n\nNo errors or warnings found in the project.".to_string()
    };
    concat2(fresh, rest.as_str())
}

/// The path whose diagnostics are asked for; an empty path stands for the project.
pub open spec fn asked_path(path: Option<String>) -> Option<Seq<char>> {
    match path {
        Some(path) => if path@.len() > 0 {
            Some(path@)
        } else {
            None
        },
        None => None,
    }
}

/// Fetches the diagnostics of the file at `path`, step by step.
pub fn diagnostics_for_path(
    path: &str,
    min_severity: DiagnosticSeverity,
    event: DiagnosticsEvent,
) -> (action: DiagnosticsAction)
    requires
        event.can_be_reported(),
    ensures
        match event {
            DiagnosticsEvent::PathSearched { found } => if found {
                action is OpenBuffer
            } else {
                action.fails_with("Could not find path "@ + path@ + " in project"@)
            },
            DiagnosticsEvent::Opened(Ok(_)) => action is AcquireAndPull,
            DiagnosticsEvent::Opened(Err(error)) => action.fails_with(
                "Failed to open '"@ + path@ + "': "@ + error@,
            ),
            DiagnosticsEvent::FilePulled { refreshed, running, groups } => if running {
                action.ends_with(file_report(primaries(groups@), min_severity, refreshed))
            } else {
                action.ends_with(
                    "No language server is running for `"@ + path@
                        + "`. Diagnostics from Zed reflect language-server output, so without a server this result cannot be trusted as 'no errors'."@,
                )
            },
            _ => action is SearchPath,
        },
{
    match event {
        DiagnosticsEvent::PathSearched { found } => if found {
            DiagnosticsAction::OpenBuffer
        } else {
            DiagnosticsAction::Finish(Err(concat3("Could not find path ", path, " in project")))
        },
        DiagnosticsEvent::Opened(Ok(_)) => DiagnosticsAction::AcquireAndPull,
        DiagnosticsEvent::Opened(Err(error)) => DiagnosticsAction::Finish(
            Err(concat4("Failed to open '", path, "': ", error.as_str())),
        ),
        DiagnosticsEvent::FilePulled { refreshed, running, groups } => DiagnosticsAction::Finish(
            Ok(
                if running {
                    write_file_report(&groups, min_severity, refreshed)
                } else {
                    concat3(
                        "No language server is running for `",
                        path,
                        "`. Diagnostics from Zed reflect language-server output, so without a server this result cannot be trusted as 'no errors'.",
                    )
                },
            ),
        ),
        _ => DiagnosticsAction::SearchPath,
    }
}

/// The least severity to report on, for a name that stands for one or for none given.
pub open spec fn min_severity_of(min_severity: Option<String>) -> Option<DiagnosticSeverity> {
    match min_severity {
        None => Some(DiagnosticSeverity::Warning),
        Some(name) => severity_named(name@),
    }
}

/// Fetches diagnostics, step by step: of the file at `path`, or a summary of the project where
/// there is no path. The least severity concerns a file alone; for the project it is ignored.
pub fn diagnostics(
    path: &Option<String>,
    min_severity: &Option<String>,
    event: DiagnosticsEvent,
) -> (action: DiagnosticsAction)
    requires
        event.can_be_reported(),
    ensures
        match asked_path(*path) {
            None => match event {
                DiagnosticsEvent::ProjectPulled { refreshed, summaries } => action.ends_with(
                    project_report(summaries@, refreshed),
                ),
                _ => action is PullProject,
            },
            Some(path) => match min_severity_of(*min_severity) {
                None => action.fails_with(invalid_severity((min_severity->0)@)),
                Some(severity) => match event {
                    DiagnosticsEvent::PathSearched { found } => if found {
                        action is OpenBuffer
                    } else {
                        action.fails_with("Could not find path "@ + path + " in project"@)
                    },
                    DiagnosticsEvent::Opened(Ok(_)) => action is AcquireAndPull,
                    DiagnosticsEvent::Opened(Err(error)) => action.fails_with(
                        "Failed to open '"@ + path + "': "@ + error@,
                    ),
                    DiagnosticsEvent::FilePulled { refreshed, running, groups } => if running {
                        action.ends_with(file_report(primaries(groups@), severity, refreshed))
                    } else {
                        action.ends_with(
                            "No language server is running for `"@ + path
                                + "`. Diagnostics from Zed reflect language-server output, so without a server this result cannot be trusted as 'no errors'."@,
                        )
                    },
                    _ => action is SearchPath,
                },
            },
        },
{
    if let Some(path) = path {
        if !path.as_str().is_empty() {
            let parsed = match min_severity {
                Some(name) => parse_min_severity(Some(name.as_str())),
                None => parse_min_severity(None),
            };
            return match parsed {
                Ok(severity) => diagnostics_for_path(path.as_str(), severity, event),
                Err(error) => DiagnosticsAction::Finish(Err(error)),
            };
        }
    }
    match event {
        DiagnosticsEvent::ProjectPulled { refreshed, summaries } => DiagnosticsAction::Finish(
            Ok(diagnostics_for_project(&summaries, refreshed)),
        ),
        _ => DiagnosticsAction::PullProject,
    }
}

/// The names of the severities differ from one another.
proof fn names_differ()
    ensures
        "error"@ != "warning"@,
        "error"@ != "information"@,
        "error"@ != "info"@,
        "error"@ != "hint"@,
        "warning"@ != "information"@,
        "warning"@ != "info"@,
        "warning"@ != "hint"@,
        "information"@ != "hint"@,
        "info"@ != "hint"@,
{
    reveal_strlit("error");
    reveal_strlit("warning");
    reveal_strlit("information");
    reveal_strlit("info");
    reveal_strlit("hint");
    assert("error"@.len() == 5 && "warning"@.len() == 7 && "information"@.len() == 11);
    assert("info"@.len() == 4 && "hint"@.len() == 4);
    assert("info"@[0] == 'i' && "hint"@[0] == 'h');
}

/// Ranks order the severities that have a name strictly, and one without a name stands below all.
pub proof fn ranks_order_severities(a: DiagnosticSeverity, b: DiagnosticSeverity)
    ensures
        rank(a) == rank(b) <==> a == b,
        label(a) is Some && label(b) is None ==> rank(a) < rank(b),
        label(a) is Some && label(b) is Some ==> (a == b <==> label(a) == label(b)),
{
    names_differ();
}

/// Every severity that has a name is found under that name.
pub proof fn labels_name_their_severity(severity: DiagnosticSeverity)
    ensures
        match label(severity) {
            Some(name) => severity_named(name) == Some(severity),
            None => severity is Unknown,
        },
{
    reveal_strlit("error");
    reveal_strlit("warning");
    reveal_strlit("information");
    reveal_strlit("info");
    reveal_strlit("hint");
    names_differ();
    if let Some(name) = label(severity) {
        assert(name.map_values(|c: char| ascii_lower(c)) =~= name);
    }
}

/// The lines of a report, in order.
pub open spec fn report_lines(
    diagnostics: Seq<Diagnostic>,
    min_severity: DiagnosticSeverity,
) -> Seq<Seq<char>>
    decreases diagnostics.len(),
{
    if diagnostics.len() == 0 {
        Seq::empty()
    } else {
        let before = report_lines(diagnostics.drop_last(), min_severity);
        if is_reported(diagnostics.last(), min_severity) {
            before.push(report_line(diagnostics.last()))
        } else {
            before
        }
    }
}

/// The texts, one after the other.
pub open spec fn joined(texts: Seq<Seq<char>>) -> Seq<char>
    decreases texts.len(),
{
    if texts.len() == 0 {
        Seq::empty()
    } else {
        joined(texts.drop_last()) + texts.last()
    }
}

/// `whole` holds the texts of `part` in their order, and maybe others between them.
pub open spec fn holds_in_order(whole: Seq<Seq<char>>, part: Seq<Seq<char>>) -> bool
    decreases whole.len(),
{
    if part.len() == 0 {
        true
    } else if whole.len() == 0 {
        false
    } else {
        ||| whole.last() == part.last() && holds_in_order(whole.drop_last(), part.drop_last())
        ||| holds_in_order(whole.drop_last(), part)
    }
}

/// A report consists of its lines.
pub proof fn report_is_its_lines(diagnostics: Seq<Diagnostic>, min_severity: DiagnosticSeverity)
    ensures
        report(diagnostics, min_severity) == joined(report_lines(diagnostics, min_severity)),
    decreases diagnostics.len(),
{
    if diagnostics.len() > 0 {
        report_is_its_lines(diagnostics.drop_last(), min_severity);
        let before = report_lines(diagnostics.drop_last(), min_severity);
        assert(before.push(report_line(diagnostics.last())).drop_last() =~= before);
    }
}

/// Lowering the least severity only adds to a report: all its lines stay, in their order.
pub proof fn lowering_only_adds(
    diagnostics: Seq<Diagnostic>,
    low: DiagnosticSeverity,
    high: DiagnosticSeverity,
)
    requires
        rank(high) <= rank(low),
    ensures
        holds_in_order(report_lines(diagnostics, low), report_lines(diagnostics, high)),
    decreases diagnostics.len(),
{
    if diagnostics.len() > 0 {
        let rest = diagnostics.drop_last();
        let line = report_line(diagnostics.last());
        lowering_only_adds(rest, low, high);
        assert(report_lines(rest, low).push(line).drop_last() =~= report_lines(rest, low));
        assert(report_lines(rest, high).push(line).drop_last() =~= report_lines(rest, high));
    }
}

/// A file has a report without lines only where none of its diagnostics is reported.
pub proof fn silence_means_nothing_reported(
    diagnostics: Seq<Diagnostic>,
    min_severity: DiagnosticSeverity,
)
    ensures
        report(diagnostics, min_severity).len() == 0 <==> (forall|i: int|
            0 <= i < diagnostics.len() ==> !is_reported(#[trigger] diagnostics[i], min_severity)),
    decreases diagnostics.len(),
{
    if diagnostics.len() > 0 {
        reveal_strlit("\n");
        let rest = diagnostics.drop_last();
        silence_means_nothing_reported(rest, min_severity);
        assert(forall|i: int| 0 <= i < rest.len() ==> #[trigger] rest[i] == diagnostics[i]);
        if is_reported(diagnostics.last(), min_severity) {
            assert(is_reported(diagnostics[diagnostics.len() - 1], min_severity));
        }
        if forall|i: int| 0 <= i < diagnostics.len() ==> !is_reported(#[trigger] diagnostics[i], min_severity) {
            assert(forall|i: int| 0 <= i < rest.len() ==> !is_reported(#[trigger] rest[i], min_severity));
        }
        if report(diagnostics, min_severity).len() == 0 {
            assert forall|i: int| 0 <= i < diagnostics.len() implies !is_reported(
                #[trigger] diagnostics[i],
                min_severity,
            ) by {
                if i < rest.len() {
                    assert(rest[i] == diagnostics[i]);
                }
            }
        }
    }
}

} // verus!
