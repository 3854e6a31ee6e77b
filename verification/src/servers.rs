//! Listing and restarting language servers.

use vstd::prelude::*;
use vstd::string::*;

use crate::search::{trim, trimmed};
use crate::text::{
    chars_of, concat2, concat5, concat6, concat9, decimal, decimal_text, same_text,
};

verus! {

/// A language server as the editor knows it.
pub struct ServerStatus {
    pub id: u64,
    pub name: String,
    pub version: Option<String>,
    /// The root name of the worktree for which it runs, where that is there.
    pub worktree: Option<String>,
    /// Whether it is running; one that is registered may still be starting, or have stopped.
    pub running: bool,
    /// The number of tasks that it has not finished.
    pub pending_work: usize,
}

impl ServerStatus {
    /// The server as a line of text: name, worktree and whether it is running, among other things.
    pub open spec fn line(&self) -> Seq<char> {
        let version = match self.version {
            Some(version) => " v"@ + version@,
            None => ""@,
        };
        let worktree = match self.worktree {
            Some(worktree) => worktree@,
            None => "<no worktree>"@,
        };
        let pending = if self.pending_work == 0 {
            "no pending work"@
        } else {
            decimal(self.pending_work as nat) + " pending task(s)"@
        };
        let status = if self.running {
            "running, "@
        } else {
            "not running, "@
        };
        "- "@ + self.name@ + version + " [id "@ + decimal(self.id as nat) + "] worktree=`"@ + worktree
            + "` — "@ + status + pending
    }

    /// Writes the server as a line of text.
    pub fn to_line(&self) -> (r: String)
        ensures
            r@ == self.line(),
    {
        let version = match &self.version {
            Some(version) => concat2(" v", version.as_str()),
            None => "".to_string(),
        };
        let worktree = match &self.worktree {
            Some(worktree) => worktree.as_str(),
            None => "<no worktree>",
        };
        let pending = if self.pending_work == 0 {
            "no pending work".to_string()
        } else {
            concat2(decimal_text(self.pending_work as u64).as_str(), " pending task(s)")
        };
        let status = if self.running {
            "running, "
        } else {
            "not running, "
        };
        let mut line = concat9(
            "- ",
            self.name.as_str(),
            version.as_str(),
            " [id ",
            decimal_text(self.id).as_str(),
            "] worktree=`",
            worktree,
            "` — ",
            status,
        );
        line.append(pending.as_str());
        line
    }
}

/// Whether a language server is taken to be running for a buffer: in a project on another machine,
/// which alone knows its servers, always; in a local one, where there is one for the buffer.
pub fn buffer_has_running_language_server(project_is_local: bool, local_servers: usize) -> (r: bool)
    ensures
        r == (!project_is_local || local_servers > 0),
{
    !project_is_local || local_servers > 0
}

/// The lines of the servers, in order.
pub open spec fn server_lines(servers: Seq<ServerStatus>) -> Seq<char>
    decreases servers.len(),
{
    if servers.len() == 0 {
        Seq::empty()
    } else {
        server_lines(servers.drop_last()) + (servers.last().line() + "\n"@)
    }
}

/// Lists the language servers of the project.
pub fn list_language_servers(servers: &Vec<ServerStatus>) -> (r: String)
    ensures
        r@ == if servers@.len() == 0 {
            "No language servers are currently registered for this project."@
        } else {
            "Language servers in this project ("@ + decimal(servers@.len()) + "):\n"@ + server_lines(
                servers@,
            )
                + "\nUse `lsp_restart_language_server` with the desired `name` to restart one (all instances with that name across worktrees will restart)."@
        },
{
    if servers.is_empty() {
        return "No language servers are currently registered for this project.".to_string();
    }
    let mut lines = String::new();
    let mut i: usize = 0;
    while i < servers.len()
        invariant
            i <= servers.len(),
            lines@ == server_lines(servers@.take(i as int)),
        decreases servers.len() - i,
    {
        proof {
            assert(servers@.take(i + 1).drop_last() =~= servers@.take(i as int));
        }
        lines.append(concat2(servers[i].to_line().as_str(), "\n").as_str());
        i = i + 1;
    }
    assert(servers@.take(servers@.len() as int) =~= servers@);
    concat5(
        "Language servers in this project (",
        decimal_text(servers.len() as u64).as_str(),
        "):\n",
        lines.as_str(),
        "\nUse `lsp_restart_language_server` with the desired `name` to restart one (all instances with that name across worktrees will restart).",
    )
}

/// What is to be done about a request to restart language servers.
pub enum RestartAction {
    /// Restart every server of the name, for all open buffers; then answer. `instances` of them
    /// have the name.
    Restart { name: String, instances: usize, answer: String },
    /// Do nothing but answer.
    Finish(Result<String, String>),
}

/// The number of servers that have the name.
pub open spec fn instances(servers: Seq<ServerStatus>, name: Seq<char>) -> nat
    decreases servers.len(),
{
    if servers.len() == 0 {
        0
    } else {
        instances(servers.drop_last(), name) + if servers.last().name@ == name {
            1nat
        } else {
            0nat
        }
    }
}

/// Counts the servers that have the name.
fn count_instances(servers: &Vec<ServerStatus>, name: &str) -> (r: usize)
    ensures
        r == instances(servers@, name@),
{
    let mut count: usize = 0;
    let mut i: usize = 0;
    while i < servers.len()
        invariant
            count <= i <= servers.len(),
            count == instances(servers@.take(i as int), name@),
        decreases servers.len() - i,
    {
        proof {
            assert(servers@.take(i + 1).drop_last() =~= servers@.take(i as int));
        }
        if same_text(servers[i].name.as_str(), name) {
            count = count + 1;
        }
        i = i + 1;
    }
    assert(servers@.take(servers@.len() as int) =~= servers@);
    count
}

/// Decides on a request to restart the language servers of a name, given the servers of the
/// project. Both the name and a reason have to be given.
pub fn restart_language_server(name: &str, reason: &str, servers: &Vec<ServerStatus>) -> (action:
    RestartAction)
    ensures
        if trimmed(name@).len() == 0 {
            action matches RestartAction::Finish(Err(message)) && message@
                == "`name` must not be empty."@
        } else if trimmed(reason@).len() == 0 {
            action matches RestartAction::Finish(Err(message)) && message@
                == "`reason` must not be empty — provide a short justification."@
        } else if instances(servers@, name@) == 0 {
            action matches RestartAction::Finish(Ok(text)) && text@ == "No language server named `"@
                + name@
                + "` is registered for this project. Call `lsp_list_language_servers` to see the available names. ("@
                + decimal(servers@.len()) + " server(s) registered overall.)"@
        } else {
            action matches RestartAction::Restart { name: restarted, instances: count, answer }
                && restarted@ == name@ && count == instances(servers@, name@) && answer@ == "Restarted `"@ + name@ + "` ("@ + decimal(instances(servers@, name@))
                + " instance(s)). The server will re-index, which can take 30–60s for moderate projects. Reason: "@
                + reason@
        },
{
    if trim(&chars_of(name)).is_empty() {
        return RestartAction::Finish(Err("`name` must not be empty.".to_string()));
    }
    if trim(&chars_of(reason)).is_empty() {
        return RestartAction::Finish(
            Err("`reason` must not be empty — provide a short justification.".to_string()),
        );
    }
    let matched = count_instances(servers, name);
    if matched == 0 {
        RestartAction::Finish(
            Ok(
                concat5(
                    "No language server named `",
                    name,
                    "` is registered for this project. Call `lsp_list_language_servers` to see the available names. (",
                    decimal_text(servers.len() as u64).as_str(),
                    " server(s) registered overall.)",
                ),
            ),
        )
    } else {
        RestartAction::Restart {
            name: name.to_string(),
            instances: matched,
            answer: concat6(
                "Restarted `",
                name,
                "` (",
                decimal_text(matched as u64).as_str(),
                " instance(s)). The server will re-index, which can take 30–60s for moderate projects. Reason: ",
                reason,
            ),
        }
    }
}

/// A name that a listed server has can be restarted: it has an instance.
pub proof fn listed_names_can_be_restarted(servers: Seq<ServerStatus>, i: int)
    requires
        0 <= i < servers.len(),
    ensures
        1 <= instances(servers, servers[i].name@) <= servers.len(),
    decreases servers.len(),
{
    instances_are_servers(servers.drop_last(), servers[i].name@);
    if i < servers.len() - 1 {
        listed_names_can_be_restarted(servers.drop_last(), i);
    }
}

/// There are no more instances of a name than servers.
proof fn instances_are_servers(servers: Seq<ServerStatus>, name: Seq<char>)
    ensures
        instances(servers, name) <= servers.len(),
    decreases servers.len(),
{
    if servers.len() > 0 {
        instances_are_servers(servers.drop_last(), name);
    }
}

} // verus!
