//! The command line itself.

use vstd::prelude::*;
use vstd::string::*;

use crate::remote_cli::wire::{
    Failure, OpenRemoteCliPaths, RemoteCliPath, Reply, MAX_MESSAGE_BYTES,
};
use crate::text::concat2;

verus! {

/// The arguments of the command line.
#[derive(Clone, Debug)]
pub struct RemoteCliArgs {
    /// Wait until the opened files are closed, or the workspace is closed for directories.
    pub wait: bool,
    /// Add paths to the remote workspace that owns this terminal.
    pub add: bool,
    /// Print the remote CLI version.
    pub version: bool,
    /// Files or directories to open, optionally followed by :line:column.
    pub paths: Vec<String>,
}

/// What becomes known while the command line runs.
pub enum CliEvent {
    Started,
    /// Whether the environment names a socket.
    SocketSought { found: bool },
    /// The current directory was read, or could not be.
    DirectoryRead(Result<(), String>),
    /// The paths were resolved one after another, or one of them could not be.
    PathsResolved(Result<Vec<RemoteCliPath>, Failure>),
    /// The socket was connected to, or could not be.
    Connected(Result<(), String>),
    /// The request takes so many bytes.
    Measured { bytes: u64 },
    /// The request was sent, or could not be.
    Sent(Result<(), String>),
    /// The answer was received, or could not be.
    Received(Result<Reply, String>),
}

/// What the command line does next.
#[derive(Debug)]
pub enum CliAction {
    /// Print the line and end with success.
    Print(String),
    SeekSocket,
    ReadDirectory,
    ResolvePaths(Vec<String>),
    /// Connect to the socket, to send the request.
    Connect(OpenRemoteCliPaths),
    MeasureRequest,
    SendRequest,
    AwaitReply,
    Finish(Result<(), Failure>),
}

impl CliAction {
    /// The command line fails.
    pub open spec fn fails_with(&self, message: Seq<char>, cause: Option<String>) -> bool {
        self matches CliAction::Finish(Err(failure)) && failure.tells(message, cause)
    }
}

/// The paths that are opened: the current directory where none is given.
pub open spec fn asked_paths(paths: Seq<String>) -> Seq<Seq<char>> {
    if paths.len() == 0 {
        seq!["."@]
    } else {
        paths.map_values(|p: String| p@)
    }
}

/// The paths that are opened: the current directory where none is given.
fn paths_to_open(paths: &Vec<String>) -> (r: Vec<String>)
    ensures
        r@.map_values(|p: String| p@) == asked_paths(paths@),
{
    let mut out: Vec<String> = Vec::new();
    if paths.is_empty() {
        out.push(".".to_string());
        assert(out@.map_values(|p: String| p@) =~= seq!["."@]);
        return out;
    }
    let mut i: usize = 0;
    while i < paths.len()
        invariant
            i <= paths.len(),
            out@.len() == i,
            forall|k: int| 0 <= k < i ==> (#[trigger] out@[k])@ == paths@[k]@,
        decreases paths.len() - i,
    {
        out.push(paths[i].as_str().to_string());
        i = i + 1;
    }
    assert(out@.map_values(|p: String| p@) =~= paths@.map_values(|p: String| p@));
    out
}

/// Runs the command line, step by step: `version` is that of the server, and `project_id` names the
/// project of the session.
pub fn run_cli(arguments: &RemoteCliArgs, version: &str, project_id: u64, event: CliEvent) -> (action:
    CliAction)
    ensures
        match event {
            CliEvent::Started => if arguments.version {
                action matches CliAction::Print(line) && line@ == "Zed remote "@ + version@
            } else {
                action is SeekSocket
            },
            CliEvent::SocketSought { found } => if found {
                action is ReadDirectory
            } else {
                action.fails_with(
                    "No Zed remote session. Run zed from a terminal opened in a Zed remote workspace."@,
                    None,
                )
            },
            CliEvent::DirectoryRead(Ok(_)) => {
                &&& action matches CliAction::ResolvePaths(paths)
                &&& paths@.map_values(|p: String| p@) == asked_paths(arguments.paths@)
            },
            CliEvent::DirectoryRead(Err(error)) => action.fails_with(
                "reading current directory"@,
                Some(error),
            ),
            CliEvent::PathsResolved(Ok(paths)) => {
                &&& action matches CliAction::Connect(request)
                &&& request == (OpenRemoteCliPaths {
                    project_id,
                    request_id: 0,
                    paths,
                    wait: arguments.wait,
                })
            },
            CliEvent::PathsResolved(Err(failure)) => action matches CliAction::Finish(Err(f)) && f
                == failure,
            CliEvent::Connected(Ok(_)) => action is MeasureRequest,
            CliEvent::Connected(Err(error)) => action.fails_with(
                "connecting to Zed remote session; open a new terminal if the session restarted"@,
                Some(error),
            ),
            CliEvent::Measured { bytes } => if bytes <= MAX_MESSAGE_BYTES {
                action is SendRequest
            } else {
                action.fails_with("too many paths to open"@, None)
            },
            CliEvent::Sent(Ok(_)) => action is AwaitReply,
            CliEvent::Sent(Err(error)) => action.fails_with(error@, None),
            CliEvent::Received(Err(error)) => action.fails_with(
                "Zed remote session ended before the request completed"@,
                Some(error),
            ),
            CliEvent::Received(Ok(Reply::Ack)) => action matches CliAction::Finish(Ok(_)),
            CliEvent::Received(Ok(Reply::Error(error))) => action.fails_with(error.message@, None),
            CliEvent::Received(Ok(Reply::Other)) => action.fails_with(
                "invalid response from Zed remote session"@,
                None,
            ),
        },
{
    match event {
        CliEvent::Started => if arguments.version {
            CliAction::Print(concat2("Zed remote ", version))
        } else {
            CliAction::SeekSocket
        },
        CliEvent::SocketSought { found } => if found {
            CliAction::ReadDirectory
        } else {
            CliAction::Finish(
                Err(
                    Failure::new(
                        "No Zed remote session. Run zed from a terminal opened in a Zed remote workspace.",
                    ),
                ),
            )
        },
        CliEvent::DirectoryRead(Ok(_)) => CliAction::ResolvePaths(paths_to_open(&arguments.paths)),
        CliEvent::DirectoryRead(Err(error)) => CliAction::Finish(
            Err(Failure::caused("reading current directory", error)),
        ),
        CliEvent::PathsResolved(Ok(paths)) => CliAction::Connect(
            OpenRemoteCliPaths { project_id, request_id: 0, paths, wait: arguments.wait },
        ),
        CliEvent::PathsResolved(Err(failure)) => CliAction::Finish(Err(failure)),
        CliEvent::Connected(Ok(_)) => CliAction::MeasureRequest,
        CliEvent::Connected(Err(error)) => CliAction::Finish(
            Err(
                Failure::caused(
                    "connecting to Zed remote session; open a new terminal if the session restarted",
                    error,
                ),
            ),
        ),
        CliEvent::Measured { bytes } => if bytes <= MAX_MESSAGE_BYTES as u64 {
            CliAction::SendRequest
        } else {
            CliAction::Finish(Err(Failure::new("too many paths to open")))
        },
        CliEvent::Sent(Ok(_)) => CliAction::AwaitReply,
        CliEvent::Sent(Err(error)) => CliAction::Finish(Err(Failure::new(error.as_str()))),
        CliEvent::Received(Err(error)) => CliAction::Finish(
            Err(Failure::caused("Zed remote session ended before the request completed", error)),
        ),
        CliEvent::Received(Ok(Reply::Ack)) => CliAction::Finish(Ok(())),
        CliEvent::Received(Ok(Reply::Error(error))) => CliAction::Finish(
            Err(Failure::new(error.message.as_str())),
        ),
        CliEvent::Received(Ok(Reply::Other)) => CliAction::Finish(
            Err(Failure::new("invalid response from Zed remote session")),
        ),
    }
}

} // verus!
