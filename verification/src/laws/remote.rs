//! Laws on the command line of remote sessions and its server.

use vstd::prelude::*;

use crate::remote_cli::client::{run_cli, CliAction, CliEvent, RemoteCliArgs};
use crate::remote_cli::launcher::{escaped, executable_is_quoted, launcher_script, shell_word};
use crate::remote_cli::paths::{
    resolve_cli_path, Parent, PathAction, PathEvent, PathResolution, Stat,
};
use crate::remote_cli::server::{
    next_request_signal, serve_connection, ConnectionAction, ConnectionEvent, Connections, Incoming,
    RequestSignal, ServeAction, ServerSignal,
};
use crate::remote_cli::wire::{
    read_cli_message, ErrorCode, Failure, RemoteCliPath, Reply,
};

verus! {

/// The script runs the executable, whatever characters its name holds, with the arguments that the
/// script is given: between `exec` and the arguments stands a word that a shell reads as the name.
pub proof fn scripts_run_the_executable(executable: &str, script: String)
    requires
        call_ensures(launcher_script, (executable,), script),
    ensures
        exists|word: Seq<char>|
            {
                &&& script@ == #[trigger] ("#!/bin/sh\nexec "@ + word + " cli \"$@\"\n"@)
                &&& shell_word(word, false) == Some(executable@)
            },
{
    executable_is_quoted(executable@);
    reveal_strlit("#!/bin/sh\nexec ");
    reveal_strlit("#!/bin/sh\nexec '");
    reveal_strlit(" cli \"$@\"\n");
    reveal_strlit("' cli \"$@\"\n");
    let word = seq!['\''] + escaped(executable@) + seq!['\''];
    assert("#!/bin/sh\nexec '"@ =~= "#!/bin/sh\nexec "@ + seq!['\'']);
    assert("' cli \"$@\"\n"@ =~= seq!['\''] + " cli \"$@\"\n"@);
    assert(script@ =~= "#!/bin/sh\nexec "@ + word + " cli \"$@\"\n"@);
}

/// A failure is told with its cause, where it has one.
pub proof fn failures_are_told_with_their_cause(
    message: &str,
    cause: String,
    alone: Failure,
    caused: Failure,
    short: String,
    long: String,
)
    requires
        call_ensures(Failure::new, (message,), alone),
        call_ensures(Failure::caused, (message, cause), caused),
        call_ensures(Failure::to_line, (&alone,), short),
        call_ensures(Failure::to_line, (&caused,), long),
    ensures
        alone.message@ == message@,
        alone.cause is None,
        caused.message@ == message@,
        caused.cause == Some(cause),
        short@ == message@,
        long@ == message@ + ": "@ + cause@,
{
}

/// The length of a message comes first, in four bytes of which the lowest stands first. A message of
/// up to a mebibyte gets a buffer of its length, and a longer one is refused.
pub proof fn lengths_are_read_from_the_lowest_byte(header: [u8; 4])
    ensures
        forall|buffer: &mut Vec<u8>, r: Result<u32, Failure>| #[trigger]
            call_ensures(read_cli_message, (header, buffer), r) ==> {
                &&& (r matches Ok(length) ==> {
                    &&& length <= 1048576
                    &&& length % 256 == header@[0]
                    &&& (length / 256) % 256 == header@[1]
                    &&& (length / 65536) % 256 == header@[2]
                    &&& length / 16777216 == header@[3]
                    &&& final(buffer)@.len() == length
                })
                &&& (r is Err <==> header@[3] > 0 || header@[2] > 16 || (header@[2] == 16 && (
                header@[1] > 0 || header@[0] > 0)))
                &&& (r matches Err(failure) ==> {
                    &&& failure.message@ == "remote CLI message exceeds size limit"@
                    &&& failure.cause is None
                    &&& final(buffer)@ == buffer@
                })
            },
{
}

/// The action tells the command line of an error.
pub open spec fn tells_error(reply: Reply, message: Seq<char>) -> bool {
    &&& reply matches Reply::Error(error)
    &&& error.message@ == message
    &&& error.code == ErrorCode::Internal
    &&& error.tags@.len() == 0
}

/// A request goes to the editor in the name of the project and under the id of its connection, with
/// the paths and the wish to wait that the command line gave, while the editor is connected. What
/// the editor answers is replied, and so is whatever goes wrong.
pub proof fn requests_are_forwarded_and_answered(
    project_id: u64,
    request_id: u64,
    event: ConnectionEvent,
    action: ServeAction,
)
    requires
        call_ensures(serve_connection, (project_id, request_id, event), action),
    ensures
        event matches ConnectionEvent::Read { incoming: Incoming::Open(request), connected: true } ==> (
        action matches ServeAction::Forward(sent) && sent.project_id == project_id && sent.request_id
            == request_id && sent.paths@ == request.paths@ && sent.wait == request.wait),
        event matches ConnectionEvent::Read { incoming: Incoming::Open(_), connected: false } ==> (
        action matches ServeAction::Reply(reply) && tells_error(
            reply,
            "Zed remote session is disconnected"@,
        )),
        event matches ConnectionEvent::Read { incoming: Incoming::TimedOut(error), .. } ==> (
        action matches ServeAction::Reply(reply) && tells_error(
            reply,
            "timed out reading remote CLI request"@ + ": "@ + error@,
        )),
        event matches ConnectionEvent::Read { incoming: Incoming::Failed(error), .. } ==> (
        action matches ServeAction::Reply(reply) && tells_error(reply, error@)),
        event matches ConnectionEvent::Read { incoming: Incoming::Unexpected, .. } ==> (
        action matches ServeAction::Reply(reply) && tells_error(
            reply,
            "expected a remote CLI open request"@,
        )),
        event matches ConnectionEvent::Answered(Ok(_)) ==> action matches ServeAction::Reply(Reply::Ack),
        event matches ConnectionEvent::Answered(Err(error)) ==> (action matches ServeAction::Reply(reply)
            && tells_error(reply, error@)),
        event matches ConnectionEvent::Written(Ok(_)) ==> action matches ServeAction::Finish(Ok(_)),
        event matches ConnectionEvent::Written(Err(error)) ==> (action matches ServeAction::Finish(
            Err(f),
        ) && f.message@ == error@ && f.cause is None),
        event matches ConnectionEvent::WriteTimedOut(error) ==> (action matches ServeAction::Finish(
            Err(f),
        ) && f.message@ == "timed out writing remote CLI response"@ && f.cause == Some(error)),
{
}

/// A request that can no longer be answered is taken back from the editor, that of the project and
/// the id and no other, and the command line is told why.
pub proof fn lost_requests_are_taken_back(
    project_id: u64,
    request_id: u64,
    event: ConnectionEvent,
    action: ServeAction,
)
    requires
        event is ConnectionChanged || event is InputReceived,
        call_ensures(serve_connection, (project_id, request_id, event), action),
    ensures
        action matches ServeAction::CancelAndReply { project_id: p, request_id: r, reply } && p
            == project_id && r == request_id && tells_error(
            reply,
            match event {
                ConnectionEvent::InputReceived(Ok(_)) => "remote CLI disconnected before the request completed"@,
                ConnectionEvent::InputReceived(Err(error)) => "reading remote CLI connection"@ + ": "@
                    + error@,
                _ => "Zed remote connection was lost before the request completed"@,
            },
        ),
{
}

/// A server begins without connections. It takes one more while it is open and serves fewer than 64,
/// under the id that follows the last one; one that ends makes room, and a shutdown takes no more.
pub proof fn connections_come_and_go(made: Result<(), String>, server: Connections, takes: bool)
    ensures
        forall|fresh: Connections| #[trigger]
            call_ensures(Connections::new, (), fresh) ==> fresh@.active == 0 && fresh@.last_id == 0
                && fresh@.open,
        call_ensures(Connections::accepts, (&server,), takes) ==> (takes <==> server@.open
            && server@.active < 64),
        forall|c: &mut Connections, action: ConnectionAction| #[trigger]
            call_ensures(Connections::accept, (c, made), action) ==> {
                &&& (made is Ok && c@.open && c@.active < 64 && c@.last_id < u64::MAX ==> {
                    &&& action matches ConnectionAction::Serve { request_id }
                    &&& request_id == c@.last_id + 1
                    &&& final(c)@.last_id == c@.last_id + 1
                    &&& final(c)@.active == c@.active + 1
                    &&& final(c)@.open
                })
                &&& (made is Ok && c@.last_id >= u64::MAX ==> {
                    &&& action matches ConnectionAction::Stop(f)
                    &&& f.message@ == "remote CLI request ID overflow"@
                    &&& f.cause is None
                    &&& final(c)@ == c@
                })
                &&& (made matches Err(error) ==> {
                    &&& action matches ConnectionAction::Stop(f)
                    &&& f.message@ == "accepting remote CLI connection"@
                    &&& f.cause == Some(error)
                    &&& final(c)@ == c@
                })
            },
        forall|c: &mut Connections, r: ()| #[trigger]
            call_ensures(Connections::request_ended, (c,), r) && c@.active > 0 ==> {
                &&& final(c)@.active == c@.active - 1
                &&& final(c)@.last_id == c@.last_id
                &&& final(c)@.open == c@.open
            },
        forall|c: &mut Connections, r: ()| #[trigger]
            call_ensures(Connections::shut_down, (c,), r) ==> {
                &&& !final(c)@.open
                &&& final(c)@.active == c@.active
                &&& final(c)@.last_id == c@.last_id
            },
{
}

/// A shutdown comes before anything else, a request that ended before a new connection, and that
/// only where there is room for it.
pub proof fn signals_have_an_order(
    server: Connections,
    shutdown: bool,
    ended: bool,
    made: bool,
    r: Option<ServerSignal>,
)
    requires
        call_ensures(Connections::next_signal, (&server, shutdown, ended, made), r),
    ensures
        r == Some(ServerSignal::Shutdown) <==> shutdown,
        r == Some(ServerSignal::RequestEnded) <==> ended && !shutdown,
        r == Some(ServerSignal::ConnectionMade) <==> made && !shutdown && !ended && server@.open
            && server@.active < 64,
{
}

/// The command line opens the paths that it is given, or the current directory where it is given
/// none, in the name of its project and waiting where it was asked to.
pub proof fn given_paths_are_opened(
    arguments: &RemoteCliArgs,
    version: &str,
    project_id: u64,
    resolved: Vec<RemoteCliPath>,
    asked: CliAction,
    connecting: CliAction,
)
    requires
        call_ensures(run_cli, (arguments, version, project_id, CliEvent::DirectoryRead(Ok(()))), asked),
        call_ensures(
            run_cli,
            (arguments, version, project_id, CliEvent::PathsResolved(Ok(resolved))),
            connecting,
        ),
    ensures
        asked matches CliAction::ResolvePaths(paths) && (if arguments.paths@.len() == 0 {
            paths@.len() == 1 && paths@[0]@ == "."@
        } else {
            paths@.len() == arguments.paths@.len() && (forall|i: int|
                0 <= i < paths@.len() ==> (#[trigger] paths@[i])@ == arguments.paths@[i]@)
        }),
        connecting matches CliAction::Connect(request) && request.project_id == project_id
            && request.request_id == 0 && request.paths@ == resolved@ && request.wait == arguments.wait,
{
    let paths = asked->ResolvePaths_0@;
    let seen = paths.map_values(|p: String| p@);
    assert(seen == crate::remote_cli::client::asked_paths(arguments.paths@));
    assert(seen.len() == paths.len());
    assert forall|i: int| 0 <= i < paths.len() implies (#[trigger] paths[i])@ == seen[i] by {}
    if arguments.paths@.len() == 0 {
        assert(paths[0]@ == seen[0]);
    } else {
        assert forall|i: int| 0 <= i < paths.len() implies (#[trigger] paths[i])@
            == arguments.paths@[i]@ by {
            assert(seen[i] == arguments.paths@.map_values(|p: String| p@)[i]);
        }
    }
}

/// The command line tells its version where it is asked to, and otherwise goes on step by step as
/// long as nothing goes wrong; what does is told, with its cause.
pub proof fn the_command_line_goes_on_or_tells(
    arguments: &RemoteCliArgs,
    version: &str,
    project_id: u64,
    event: CliEvent,
    action: CliAction,
)
    requires
        call_ensures(run_cli, (arguments, version, project_id, event), action),
    ensures
        event is Started && arguments.version ==> (action matches CliAction::Print(line) && line@
            == "Zed remote "@ + version@),
        event is Started && !arguments.version ==> action is SeekSocket,
        event matches CliEvent::SocketSought { found: true } ==> action is ReadDirectory,
        event matches CliEvent::SocketSought { found: false } ==> (action matches CliAction::Finish(
            Err(f),
        ) && f.cause is None && f.message@
            == "No Zed remote session. Run zed from a terminal opened in a Zed remote workspace."@),
        event matches CliEvent::DirectoryRead(Err(error)) ==> (action matches CliAction::Finish(Err(f))
            && f.message@ == "reading current directory"@ && f.cause == Some(error)),
        event matches CliEvent::PathsResolved(Err(failure)) ==> (action matches CliAction::Finish(
            Err(f),
        ) && f == failure),
        event matches CliEvent::Connected(Ok(_)) ==> action is MeasureRequest,
        event matches CliEvent::Connected(Err(error)) ==> (action matches CliAction::Finish(Err(f))
            && f.message@
            == "connecting to Zed remote session; open a new terminal if the session restarted"@
            && f.cause == Some(error)),
        event matches CliEvent::Measured { bytes } ==> (bytes <= 1048576 <==> action is SendRequest),
        event matches CliEvent::Measured { bytes } ==> (bytes > 1048576 ==> (
        action matches CliAction::Finish(Err(f)) && f.message@ == "too many paths to open"@ && f.cause
            is None)),
        event matches CliEvent::Sent(Ok(_)) ==> action is AwaitReply,
        event matches CliEvent::Sent(Err(error)) ==> (action matches CliAction::Finish(Err(f))
            && f.message@ == error@ && f.cause is None),
        event matches CliEvent::Received(Ok(Reply::Ack)) ==> action matches CliAction::Finish(Ok(_)),
        event matches CliEvent::Received(Ok(Reply::Error(error))) ==> (action matches CliAction::Finish(
            Err(f),
        ) && f.message@ == error.message@ && f.cause is None),
        event matches CliEvent::Received(Ok(Reply::Other)) ==> (action matches CliAction::Finish(Err(f))
            && f.message@ == "invalid response from Zed remote session"@ && f.cause is None),
        event matches CliEvent::Received(Err(error)) ==> (action matches CliAction::Finish(Err(f))
            && f.message@ == "Zed remote session ended before the request completed"@ && f.cause
            == Some(error)),
{
}

/// A tilde at the beginning of a path, alone or before a slash, stands for the home directory where
/// there is one; another path is checked as it is written.
pub proof fn paths_begin_at_home_or_as_written(
    value: &str,
    home: Option<&str>,
    r: (PathResolution, PathAction),
)
    requires
        call_ensures(resolve_cli_path, (value, home), r),
    ensures
        r.0.row is None && r.0.column is None && !r.0.is_directory,
        r.1 matches PathAction::CheckLiteral(path) && {
            &&& (home matches Some(h) ==> (value@.len() > 0 && value@[0] == '~' && (value@.len() == 1
                || value@[1] == '/') ==> path@ == h@ + value@.skip(1)))
            &&& (home is None || value@.len() == 0 || value@[0] != '~' || (value@.len() > 1 && value@[1]
                != '/' && value@[1] != '\\') ==> path@ == value@)
        },
{
}

/// A path that exists as it is written is opened without a position. Only where it does not, a
/// position is taken off its end.
pub proof fn positions_are_for_paths_that_do_not_exist(stat: Stat)
    ensures
        forall|p: &mut PathResolution, action: PathAction| #[trigger]
            call_ensures(PathResolution::step, (p, PathEvent::LiteralChecked(stat)), action) ==> {
                &&& (stat is Exists ==> action is CheckLiteralPath && final(p).row is None && final(p).column is None)
                &&& (stat is NotFound ==> action is ParsePosition && *final(p) == *p)
                &&& (stat matches Stat::Failed { path, error } ==> {
                    &&& action matches PathAction::Finish(Err(f))
                    &&& f.message@ == "reading "@ + path@
                    &&& f.cause == Some(error)
                })
                &&& final(p).is_directory == p.is_directory
            },
{
}

/// A path is made canonical where it exists; where it does not, its directory is, if it has one. What
/// goes wrong is told.
pub proof fn paths_are_made_canonical(
    stat: Stat,
    has_parent: bool,
    canonical: Result<(), String>,
    parent: Parent,
)
    ensures
        forall|p: &mut PathResolution, action: PathAction| #[trigger]
            call_ensures(
                PathResolution::step,
                (p, PathEvent::PathChecked { stat, has_parent }),
                action,
            ) ==> {
                &&& final(p).row == p.row && final(p).column == p.column
                &&& (stat matches Stat::Exists { is_directory } ==> action is Canonicalize && final(p).is_directory == is_directory)
                &&& (stat is NotFound ==> !final(p).is_directory && (if has_parent {
                    action is CanonicalizeParent
                } else {
                    action is TellPath
                }))
                &&& (stat matches Stat::Failed { path, error } ==> {
                    &&& action matches PathAction::Finish(Err(f))
                    &&& f.message@ == "reading "@ + path@
                    &&& f.cause == Some(error)
                })
            },
        forall|p: &mut PathResolution, action: PathAction| #[trigger]
            call_ensures(PathResolution::step, (p, PathEvent::Canonicalized(canonical)), action) ==> {
                &&& *final(p) == *p
                &&& (canonical is Ok ==> action is TellPath)
                &&& (canonical matches Err(error) ==> {
                    &&& action matches PathAction::Finish(Err(f))
                    &&& f.message@ == error@
                    &&& f.cause is None
                })
            },
        forall|p: &mut PathResolution, action: PathAction| #[trigger]
            call_ensures(PathResolution::step, (p, PathEvent::ParentCanonicalized(parent)), action) ==> {
                &&& *final(p) == *p
                &&& (parent is Resolved ==> action is JoinParent)
                &&& (parent is NotFound ==> action is TellPath)
                &&& (parent matches Parent::Failed { path, error } ==> {
                    &&& action matches PathAction::Finish(Err(f))
                    &&& f.message@ == "resolving "@ + path@
                    &&& f.cause == Some(error)
                })
            },
{
}

/// A path that is known is told with the position and the kind that were found for it; one that is no
/// valid text is refused.
pub proof fn known_paths_are_told(path: String, row: Option<u32>, column: Option<u32>)
    ensures
        forall|p: &mut PathResolution, action: PathAction| #[trigger]
            call_ensures(PathResolution::step, (p, PathEvent::Known(Some(path))), action) ==> {
                &&& action matches PathAction::Finish(Ok(told))
                &&& told.path == path
                &&& told.row == p.row
                &&& told.column == p.column
                &&& told.is_directory == p.is_directory
            },
        forall|p: &mut PathResolution, action: PathAction| #[trigger]
            call_ensures(PathResolution::step, (p, PathEvent::Known(None)), action) ==> {
                &&& action matches PathAction::Finish(Err(f))
                &&& f.message@ == "remote CLI paths must be valid UTF-8"@
                &&& f.cause is None
            },
        forall|p: &mut PathResolution, action: PathAction| #[trigger]
            call_ensures(PathResolution::step, (p, PathEvent::Parsed { row, column }), action) ==> {
                &&& action is CheckPath
                &&& final(p).row == row
                &&& final(p).column == column
                &&& final(p).is_directory == p.is_directory
            },
{
}

/// A server ends once it was shut down and either serves nobody any more or its time of grace is over.
pub proof fn servers_end_after_shutdown(server: Connections, grace_over: bool, r: bool)
    requires
        call_ensures(Connections::is_over, (&server, grace_over), r),
    ensures
        server@.open ==> !r,
        !server@.open && server@.active == 0 ==> r,
        !server@.open && server@.active > 0 ==> (r <==> grace_over),
{
}

/// An answer wins over a connection that was lost, and that over anything from the command line.
pub proof fn answers_come_first(answered: bool, changed: bool, received: bool, r: Option<RequestSignal>)
    requires
        call_ensures(next_request_signal, (answered, changed, received), r),
    ensures
        r == Some(RequestSignal::Answered) <==> answered,
        r == Some(RequestSignal::ConnectionChanged) <==> changed && !answered,
        r == Some(RequestSignal::InputReceived) <==> received && !changed && !answered,
{
}

} // verus!
