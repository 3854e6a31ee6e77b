//! Laws on language servers.

use vstd::prelude::*;

use crate::laws::search::{is_blank, trimmed_is_core};
use crate::servers::{
    buffer_has_running_language_server, instances, list_language_servers, restart_language_server,
    server_lines, RestartAction, ServerStatus,
};
use crate::text::decimal;

verus! {

/// What an agent is told of a server: name, version, id, worktree, whether it is running, and how
/// much it has still to do.
pub open spec fn told_server(server: ServerStatus) -> Seq<char> {
    "- "@ + server.name@ + (match server.version {
        Some(version) => " v"@ + version@,
        None => Seq::empty(),
    }) + " [id "@ + decimal(server.id as nat) + "] worktree=`"@ + (match server.worktree {
        Some(worktree) => worktree@,
        None => "<no worktree>"@,
    }) + (if server.running {
        "` — running, "@
    } else {
        "` — not running, "@
    }) + (if server.pending_work > 0 {
        decimal(server.pending_work as nat) + " pending task(s)"@
    } else {
        "no pending work"@
    }) + "\n"@
}

/// What an agent is told of the servers, one by one.
pub open spec fn told_servers(servers: Seq<ServerStatus>) -> Seq<Seq<char>> {
    Seq::new(servers.len(), |k: int| told_server(servers[k]))
}

proof fn line_is_told(server: ServerStatus)
    ensures
        server.line() + "\n"@ == told_server(server),
{
    reveal_strlit("");
    reveal_strlit("` — ");
    reveal_strlit("running, ");
    reveal_strlit("not running, ");
    reveal_strlit("` — running, ");
    reveal_strlit("` — not running, ");
    assert("` — "@ + "running, "@ =~= "` — running, "@);
    assert("` — "@ + "not running, "@ =~= "` — not running, "@);
    assert(server.line() + "\n"@ =~= told_server(server));
}

proof fn lines_are_told(servers: Seq<ServerStatus>)
    ensures
        server_lines(servers) == told_servers(servers).flatten(),
    decreases servers.len(),
{
    if servers.len() > 0 {
        let rest = servers.drop_last();
        lines_are_told(rest);
        line_is_told(servers.last());
        told_servers(rest).lemma_flatten_push(told_server(servers.last()));
        assert(told_servers(servers) =~= told_servers(rest).push(told_server(servers.last())));
    }
}

/// The servers of a project are counted and told, every one of them, in order. Where there is none,
/// that is said.
pub proof fn every_server_is_told(servers: &Vec<ServerStatus>, text: String)
    requires
        call_ensures(list_language_servers, (servers,), text),
    ensures
        text@ == if servers@.len() > 0 {
            "Language servers in this project ("@ + decimal(servers@.len()) + "):\n"@ + told_servers(
                servers@,
            ).flatten()
                + "\nUse `lsp_restart_language_server` with the desired `name` to restart one (all instances with that name across worktrees will restart)."@
        } else {
            "No language servers are currently registered for this project."@
        },
{
    lines_are_told(servers@);
}

/// The servers that have the name.
pub open spec fn namesakes(servers: Seq<ServerStatus>, name: Seq<char>) -> Seq<ServerStatus> {
    servers.filter(|server: ServerStatus| server.name@ == name)
}

proof fn namesakes_are_instances(servers: Seq<ServerStatus>, name: Seq<char>)
    ensures
        instances(servers, name) == namesakes(servers, name).len(),
    decreases servers.len(),
{
    reveal(Seq::filter);
    if servers.len() > 0 {
        namesakes_are_instances(servers.drop_last(), name);
    }
}

/// A restart takes a name and a reason that are more than white space. Then all servers of the name
/// are restarted and counted, with the reason given; where there is none, that is said.
pub proof fn restarts_are_by_name(
    name: &str,
    reason: &str,
    servers: &Vec<ServerStatus>,
    action: RestartAction,
)
    requires
        call_ensures(restart_language_server, (name, reason, servers), action),
    ensures
        is_blank(name@) ==> (action matches RestartAction::Finish(Err(e)) && e@
            == "`name` must not be empty."@),
        !is_blank(name@) && is_blank(reason@) ==> (action matches RestartAction::Finish(Err(e)) && e@
            == "`reason` must not be empty — provide a short justification."@),
        !is_blank(name@) && !is_blank(reason@) && namesakes(servers@, name@).len() == 0 ==> (
        action matches RestartAction::Finish(Ok(text)) && text@ == "No language server named `"@ + name@
            + "` is registered for this project. Call `lsp_list_language_servers` to see the available names. ("@
            + decimal(servers@.len()) + " server(s) registered overall.)"@),
        !is_blank(name@) && !is_blank(reason@) && namesakes(servers@, name@).len() > 0 ==> (
        action matches RestartAction::Restart { name: n, instances: count, answer } && n@ == name@
            && count == namesakes(servers@, name@).len() && answer@ == "Restarted `"@ + name@ + "` ("@
            + decimal(namesakes(servers@, name@).len())
            + " instance(s)). The server will re-index, which can take 30–60s for moderate projects. Reason: "@
            + reason@),
{
    namesakes_are_instances(servers@, name@);
    blank_is_trimmed_away(name@);
    blank_is_trimmed_away(reason@);
}

proof fn blank_is_trimmed_away(s: Seq<char>)
    ensures
        crate::search::trimmed(s).len() == 0 <==> is_blank(s),
{
    trimmed_is_core(s);
    if is_blank(s) {
        let none = Seq::<char>::empty();
        assert(s =~= s + none + none);
        assert(is_blank(none));
        assert(crate::laws::search::is_core_of(none, s));
    } else {
        let core = crate::search::trimmed(s);
        let (before, behind) = choose|before: Seq<char>, behind: Seq<char>|
            s == #[trigger] (before + core + behind) && is_blank(before) && is_blank(behind);
        if core.len() == 0 {
            assert forall|i: int| 0 <= i < s.len() implies crate::text::is_space(#[trigger] s[i]) by {
                if i < before.len() {
                    assert(s[i] == before[i]);
                } else {
                    assert(s[i] == behind[i - before.len()]);
                }
            }
        }
    }
}

/// In a project on another machine a server is taken to be running; in a local one it takes a server
/// for the buffer.
pub proof fn servers_run_remotely_or_locally(project_is_local: bool, local_servers: usize, r: bool)
    requires
        call_ensures(buffer_has_running_language_server, (project_is_local, local_servers), r),
    ensures
        !project_is_local ==> r,
        project_is_local ==> (r <==> local_servers > 0),
{
}

} // verus!
