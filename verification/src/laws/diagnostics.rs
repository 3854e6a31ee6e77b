//! Laws on diagnostics.

use vstd::prelude::*;

use crate::diagnostics::{
    any_listed, diagnostics, is_listed, is_reported, parse_min_severity,
    primaries, report, severity_label, severity_named, severity_rank,
    silence_means_nothing_reported, summary_list, Diagnostic, DiagnosticGroup,
    DiagnosticSeverity, DiagnosticsAction, DiagnosticsEvent, FileSummary,
};
use crate::text::{ascii_lower, decimal};

verus! {

/// The severities rank from errors over warnings, information and hints down to what has no name.
pub proof fn severities_rank_downwards(error: u8, warning: u8, information: u8, hint: u8, unknown: u8)
    requires
        call_ensures(severity_rank, (DiagnosticSeverity::Error,), error),
        call_ensures(severity_rank, (DiagnosticSeverity::Warning,), warning),
        call_ensures(severity_rank, (DiagnosticSeverity::Information,), information),
        call_ensures(severity_rank, (DiagnosticSeverity::Hint,), hint),
        call_ensures(severity_rank, (DiagnosticSeverity::Unknown,), unknown),
    ensures
        error < warning < information < hint < unknown,
{
}

/// A severity is at least as severe as `least`.
pub open spec fn at_least(severity: DiagnosticSeverity, least: DiagnosticSeverity) -> bool {
    match severity {
        DiagnosticSeverity::Error => true,
        DiagnosticSeverity::Warning => !(least is Error),
        DiagnosticSeverity::Information => !(least is Error) && !(least is Warning),
        DiagnosticSeverity::Hint => least is Hint || least is Unknown,
        DiagnosticSeverity::Unknown => false,
    }
}

/// What a severity is called.
pub open spec fn called(severity: DiagnosticSeverity) -> Seq<char> {
    match severity {
        DiagnosticSeverity::Error => "error"@,
        DiagnosticSeverity::Warning => "warning"@,
        DiagnosticSeverity::Information => "information"@,
        DiagnosticSeverity::Hint => "hint"@,
        DiagnosticSeverity::Unknown => Seq::empty(),
    }
}

/// A severity is called by its name; what is no known severity has none.
pub proof fn severities_have_their_names(severity: DiagnosticSeverity, label: Option<&'static str>)
    requires
        call_ensures(severity_label, (severity,), label),
    ensures
        label is None <==> severity is Unknown,
        label matches Some(name) ==> name@ == called(severity),
{
}

/// `name` is `word`, but for capitals.
pub open spec fn is_word_in_any_case(name: Seq<char>, word: Seq<char>) -> bool {
    &&& name.len() == word.len()
    &&& (forall|i: int|
        #![trigger name[i]]
        0 <= i < name.len() ==> name[i] == word[i] || 'A' <= name[i] <= 'Z' && name[i] as int + 32
            == word[i] as int)
}

/// `least` is the least severity that is asked for: the one that is named, or else a warning.
pub open spec fn asks_for(min_severity: Option<Seq<char>>, least: DiagnosticSeverity) -> bool {
    match min_severity {
        None => least is Warning,
        Some(name) => match least {
            DiagnosticSeverity::Error => is_word_in_any_case(name, "error"@),
            DiagnosticSeverity::Warning => is_word_in_any_case(name, "warning"@),
            DiagnosticSeverity::Information => is_word_in_any_case(name, "information"@)
                || is_word_in_any_case(name, "info"@),
            DiagnosticSeverity::Hint => is_word_in_any_case(name, "hint"@),
            DiagnosticSeverity::Unknown => false,
        },
    }
}

/// A word without capitals is what its variants have in common in lower case.
proof fn word_in_lower_case(name: Seq<char>, word: Seq<char>)
    requires
        forall|i: int| 0 <= i < word.len() ==> 'a' <= #[trigger] word[i] <= 'z',
    ensures
        is_word_in_any_case(name, word) <==> name.map_values(|c: char| ascii_lower(c)) == word,
{
    let lower = name.map_values(|c: char| ascii_lower(c));
    if is_word_in_any_case(name, word) {
        assert forall|i: int| 0 <= i < word.len() implies #[trigger] lower[i] == word[i] by {
            assert(name[i] == name[i]);
            assert('a' <= word[i] <= 'z');
        }
        assert(lower =~= word);
    }
    if lower == word {
        assert forall|i: int|
            #![trigger name[i]]
            0 <= i < name.len() implies name[i] == word[i] || 'A' <= name[i] <= 'Z' && name[i] as int
            + 32 == word[i] as int by {
            assert(lower[i] == ascii_lower(name[i]));
        }
    }
}

/// Exactly the names of the severities are accepted, and `info` for information, in any mixture of
/// cases; each stands for its severity.
pub proof fn names_stand_for_severities(
    min_severity: Option<&str>,
    r: Result<DiagnosticSeverity, String>,
    severity: DiagnosticSeverity,
)
    requires
        call_ensures(parse_min_severity, (min_severity,), r),
    ensures
        r == Ok::<DiagnosticSeverity, String>(severity) <==> asks_for(
            match min_severity {
                Some(name) => Some(name@),
                None => None,
            },
            severity,
        ),
{
    if let Some(name) = min_severity {
        names_are_read(name@);
        assert(asks_for(Some(name@), severity) <==> severity_named(name@) == Some(severity));
    }
}

proof fn names_are_read(name: Seq<char>)
    ensures
        forall|severity: DiagnosticSeverity| #[trigger]
            asks_for(Some(name), severity) <==> severity_named(name) == Some(severity),
{
    reveal_strlit("error");
    reveal_strlit("warning");
    reveal_strlit("information");
    reveal_strlit("info");
    reveal_strlit("hint");
    word_in_lower_case(name, "error"@);
    word_in_lower_case(name, "warning"@);
    word_in_lower_case(name, "information"@);
    word_in_lower_case(name, "info"@);
    word_in_lower_case(name, "hint"@);
    assert("error"@.len() == 5 && "warning"@.len() == 7 && "information"@.len() == 11);
    assert("info"@.len() == 4 && "hint"@.len() == 4);
    assert("info"@[0] == 'i' && "hint"@[0] == 'h');
}

/// What an agent is told of a diagnostic: severity, line and message.
pub open spec fn told(diagnostic: Diagnostic) -> Seq<char> {
    called(diagnostic.severity) + " at line "@ + decimal((diagnostic.row + 1) as nat) + ": "@
        + diagnostic.message@ + "\n"@
}

/// The primary entries of the groups that are at least as severe as `least`, in order.
pub open spec fn wanted(groups: Seq<DiagnosticGroup>, least: DiagnosticSeverity) -> Seq<Diagnostic> {
    Seq::new(
        groups.len(),
        |i: int| groups[i].entries@[groups[i].primary_ix as int],
    ).filter(|d: Diagnostic| at_least(d.severity, least))
}

proof fn report_is_told(diagnostics: Seq<Diagnostic>, least: DiagnosticSeverity)
    ensures
        report(diagnostics, least) == diagnostics.filter(
            |d: Diagnostic| at_least(d.severity, least),
        ).map_values(|d: Diagnostic| told(d)).flatten(),
    decreases diagnostics.len(),
{
    reveal(Seq::filter);
    let kept = |d: Diagnostic| at_least(d.severity, least);
    let text = |d: Diagnostic| told(d);
    if diagnostics.len() > 0 {
        let rest = diagnostics.drop_last();
        let last = diagnostics.last();
        report_is_told(rest, least);
        assert(is_reported(last, least) <==> at_least(last.severity, least));
        if at_least(last.severity, least) {
            assert(diagnostics.filter(kept) == rest.filter(kept).push(last));
            rest.filter(kept).map_values(text).lemma_flatten_push(told(last));
            assert(diagnostics.filter(kept).map_values(text) =~= rest.filter(kept).map_values(
                text,
            ).push(told(last)));
        }
    } else {
        assert(diagnostics.filter(kept).map_values(text) =~= Seq::empty());
    }
}

proof fn wanted_is_reported(groups: Seq<DiagnosticGroup>, least: DiagnosticSeverity)
    ensures
        report(primaries(groups), least) == wanted(groups, least).map_values(
            |d: Diagnostic| told(d),
        ).flatten(),
        report(primaries(groups), least).len() == 0 <==> wanted(groups, least).len() == 0,
{
    report_is_told(primaries(groups), least);
    silence_means_nothing_reported(primaries(groups), least);
    assert(primaries(groups) =~= Seq::new(
        groups.len(),
        |i: int| groups[i].entries@[groups[i].primary_ix as int],
    ));
    let kept = |d: Diagnostic| at_least(d.severity, least);
    let all = primaries(groups);
    assert(wanted(groups, least) == all.filter(kept));
    if wanted(groups, least).len() > 0 {
        all.lemma_filter_pred(kept, 0);
        all.lemma_filter_contains_rev(kept, all.filter(kept)[0]);
        let i = choose|i: int| 0 <= i < all.len() && all[i] == all.filter(kept)[0];
        assert(is_reported(all[i], least));
    } else {
        assert(wanted(groups, least).map_values(|d: Diagnostic| told(d)) =~= Seq::empty());
    }
}

/// What is said of how fresh diagnostics are.
pub open spec fn fresh_or_stale(refreshed: bool) -> Seq<char> {
    if refreshed {
        "Diagnostics successfully refreshed."@
    } else {
        "Failed to refresh diagnostics. Diagnostics may be stale."@
    }
}

/// The report on a file tells, in order, of the primary entry of every group that is at least as
/// severe as was asked for, and of no other. Where there is none, that is said.
pub proof fn wanted_diagnostics_are_told(
    path: &Option<String>,
    min_severity: &Option<String>,
    least: DiagnosticSeverity,
    refreshed: bool,
    groups: Vec<DiagnosticGroup>,
    action: DiagnosticsAction,
)
    requires
        *path matches Some(p) && p@.len() > 0,
        asks_for(
            match *min_severity {
                Some(name) => Some(name@),
                None => None,
            },
            least,
        ),
        call_ensures(
            diagnostics,
            (
                path,
                min_severity,
                DiagnosticsEvent::FilePulled { refreshed, running: true, groups },
            ),
            action,
        ),
    ensures
        action matches DiagnosticsAction::Finish(Ok(text)) && text@ == fresh_or_stale(refreshed)
            + "\n\n"@ + if wanted(groups@, least).len() > 0 {
            wanted(groups@, least).map_values(|d: Diagnostic| told(d)).flatten()
        } else {
            "File doesn't have any diagnostics at `"@ + called(least) + "` severity or higher!"@
        },
{
    wanted_is_reported(groups@, least);
    if let Some(name) = *min_severity {
        names_are_read(name@);
        assert(asks_for(Some(name@), least));
    }
    if wanted(groups@, least).len() == 0 {
        reveal_strlit("\n\n");
        reveal_strlit("File doesn't have any diagnostics at `");
        reveal_strlit("\n\nFile doesn't have any diagnostics at `");
        assert("\n\nFile doesn't have any diagnostics at `"@ =~= "\n\n"@
            + "File doesn't have any diagnostics at `"@);
        let text = action->Finish_0->Ok_0@;
        assert(text =~= fresh_or_stale(refreshed) + "\n\n"@ + (
        "File doesn't have any diagnostics at `"@ + called(least) + "` severity or higher!"@));
    }
}

/// What an agent is told of a file with errors or warnings.
pub open spec fn told_summary(summary: FileSummary) -> Seq<char> {
    (summary.path->0)@ + ": "@ + decimal(summary.error_count as nat) + " error(s), "@ + decimal(
        summary.warning_count as nat,
    ) + " warning(s)\n"@
}

/// The files that have errors or warnings, in order.
pub open spec fn faulty(summaries: Seq<FileSummary>) -> Seq<FileSummary> {
    summaries.filter(|s: FileSummary| s.path is Some && s.error_count + s.warning_count > 0)
}

proof fn summaries_are_told(summaries: Seq<FileSummary>)
    ensures
        summary_list(summaries) == faulty(summaries).map_values(
            |s: FileSummary| told_summary(s),
        ).flatten(),
        any_listed(summaries) <==> faulty(summaries).len() > 0,
    decreases summaries.len(),
{
    reveal(Seq::filter);
    let kept = |s: FileSummary| s.path is Some && s.error_count + s.warning_count > 0;
    let text = |s: FileSummary| told_summary(s);
    if summaries.len() > 0 {
        let rest = summaries.drop_last();
        let last = summaries.last();
        summaries_are_told(rest);
        assert(is_listed(last) <==> kept(last));
        if kept(last) {
            assert(summaries.filter(kept) == rest.filter(kept).push(last));
            rest.filter(kept).map_values(text).lemma_flatten_push(told_summary(last));
            assert(summaries.filter(kept).map_values(text) =~= rest.filter(kept).map_values(
                text,
            ).push(told_summary(last)));
            assert(is_listed(summaries[summaries.len() - 1]));
        } else {
            if any_listed(rest) {
                let i = choose|i: int| 0 <= i < rest.len() && is_listed(#[trigger] rest[i]);
                assert(is_listed(summaries[i]));
            }
            if any_listed(summaries) {
                let i = choose|i: int|
                    0 <= i < summaries.len() && is_listed(#[trigger] summaries[i]);
                assert(is_listed(rest[i]));
            }
        }
    } else {
        assert(summaries.filter(kept).map_values(text) =~= Seq::empty());
    }
}

/// The report on a project tells, in order, of every file that has errors or warnings, with their
/// numbers, and of no other, whatever severity was asked for. Where there is none, that is said.
pub proof fn faulty_files_are_told(
    path: &Option<String>,
    min_severity: &Option<String>,
    refreshed: bool,
    summaries: Vec<FileSummary>,
    action: DiagnosticsAction,
)
    requires
        *path is None || (path->0)@.len() == 0,
        call_ensures(
            diagnostics,
            (path, min_severity, DiagnosticsEvent::ProjectPulled { refreshed, summaries }),
            action,
        ),
    ensures
        action matches DiagnosticsAction::Finish(Ok(text)) && text@ == fresh_or_stale(refreshed)
            + if faulty(summaries@).len() > 0 {
            "\n\n"@ + faulty(summaries@).map_values(|s: FileSummary| told_summary(s)).flatten()
        } else if refreshed {
            "\n\nNo errors or warnings found in the project."@
        } else {
            "\n\nNo errors or warnings reported. This may mean no language server is currently running for this project's files."@
        },
{
    summaries_are_told(summaries@);
}

/// Before a report can be made: a project is pulled at once, while for a file its path is searched
/// for, its buffer opened and its diagnostics pulled. What goes wrong is told, and so is that no
/// server is running for the file.
pub proof fn failed_diagnostics_are_told(
    path: &Option<String>,
    min_severity: &Option<String>,
    least: DiagnosticSeverity,
    event: DiagnosticsEvent,
    action: DiagnosticsAction,
)
    requires
        call_ensures(diagnostics, (path, min_severity, event), action),
        asks_for(
            match *min_severity {
                Some(name) => Some(name@),
                None => None,
            },
            least,
        ),
    ensures
        event is Requested && (*path is None || (path->0)@.len() == 0) ==> action is PullProject,
        *path matches Some(p) ==> p@.len() > 0 ==> {
            &&& (event is Requested ==> action is SearchPath)
            &&& (event matches DiagnosticsEvent::PathSearched { found: true } ==> action is OpenBuffer)
            &&& (event matches DiagnosticsEvent::PathSearched { found: false } ==> action matches DiagnosticsAction::Finish(
                Err(e),
            ) && e@ == "Could not find path "@ + p@ + " in project"@)
            &&& (event matches DiagnosticsEvent::Opened(Ok(_)) ==> action is AcquireAndPull)
            &&& (event matches DiagnosticsEvent::Opened(Err(error)) ==> action matches DiagnosticsAction::Finish(
                Err(e),
            ) && e@ == "Failed to open '"@ + p@ + "': "@ + error@)
            &&& (event matches DiagnosticsEvent::FilePulled { running: false, .. } ==> action matches DiagnosticsAction::Finish(
                Ok(text),
            ) && text@ == "No language server is running for `"@ + p@
                + "`. Diagnostics from Zed reflect language-server output, so without a server this result cannot be trusted as 'no errors'."@)
        },
{
    if let Some(name) = *min_severity {
        names_are_read(name@);
        assert(asks_for(Some(name@), least));
    }
}

/// A name that stands for no severity is refused, and shown in quotes with its capitals in lower
/// case: as it is, where it holds only letters, digits and the like.
pub proof fn unknown_severities_are_refused(
    path: &Option<String>,
    name: String,
    event: DiagnosticsEvent,
    action: DiagnosticsAction,
)
    requires
        *path matches Some(p) && p@.len() > 0,
        forall|severity: DiagnosticSeverity| !#[trigger] asks_for(Some(name@), severity),
        call_ensures(diagnostics, (path, &Some(name), event), action),
    ensures
        action matches DiagnosticsAction::Finish(Err(e)) && exists|shown: Seq<char>|
            {
                &&& #[trigger] shown.len() == shown.len()
                &&& e@ == "invalid min_severity "@ + shown
                    + "; expected one of: error, warning, information, hint"@
                &&& ((forall|i: int|
                    0 <= i < name@.len() ==> '0' <= #[trigger] name@[i] <= '9' || 'a' <= name@[i]
                        <= 'z' || name@[i] == '_') ==> shown == seq!['"'] + name@ + seq!['"'])
            },
{
    names_are_read(name@);
    if let Some(severity) = severity_named(name@) {
        assert(asks_for(Some(name@), severity));
    }
    let lower = name@.map_values(|c: char| ascii_lower(c));
    let shown = crate::text::quoted(lower);
    if forall|i: int|
        0 <= i < name@.len() ==> '0' <= #[trigger] name@[i] <= '9' || 'a' <= name@[i] <= 'z' || name@[i]
            == '_' {
        assert forall|i: int| 0 <= i < lower.len() implies ' ' <= #[trigger] lower[i] <= '~'
            && lower[i] != '"' && lower[i] != '\'' && lower[i] != '\\' by {
            assert(lower[i] == ascii_lower(name@[i]));
        }
        assert(lower =~= name@) by {
            assert forall|i: int| 0 <= i < lower.len() implies lower[i] == name@[i] by {
                assert(lower[i] == ascii_lower(name@[i]));
            }
        }
    }
    assert(shown.len() == shown.len());
}

} // verus!
