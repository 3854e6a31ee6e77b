//! The server that takes requests from the command line and passes them on to the editor.

use vstd::prelude::*;
use vstd::string::*;

use crate::remote_cli::wire::{Failure, OpenRemoteCliPaths, RemoteError, Reply};

verus! {

/// The number of connections that are served at the same time.
pub const MAX_CONNECTIONS: usize = 64;

/// The number of seconds for which requests may still be answered once the server is shut down.
pub const SHUTDOWN_GRACE_SECONDS: u64 = 1;

/// What the server waits for.
#[derive(Clone, Copy, Debug, PartialEq, Eq, Structural)]
pub enum ServerSignal {
    Shutdown,
    RequestEnded,
    ConnectionMade,
}

/// The server: how many connections it serves, the id that it gave out last, and whether it takes
/// further connections.
pub struct Connections {
    active: usize,
    last_id: u64,
    open: bool,
}

/// What a server is at one moment.
pub struct ServerState {
    /// The number of connections that are being served.
    pub active: nat,
    /// The id that was given out last; 0 where none was.
    pub last_id: nat,
    /// Whether the server was not shut down yet.
    pub open: bool,
}

/// What happens to a server.
#[derive(Clone, Copy, Debug, PartialEq, Eq, Structural)]
pub enum ServerEvent {
    /// A connection was taken.
    Accepted,
    /// A connection is no longer served, whether it ended well or failed.
    Ended,
    Shutdown,
}

/// A server that was just started.
pub open spec fn started() -> ServerState {
    ServerState { active: 0, last_id: 0, open: true }
}

/// The server takes a further connection.
pub open spec fn takes_connection(state: ServerState) -> bool {
    state.open && state.active < MAX_CONNECTIONS
}

/// The event can happen to a server: it takes no connection beyond the limit, none once it was shut
/// down and none that it has no id for, and only a connection that is served can end.
pub open spec fn can_happen(state: ServerState, event: ServerEvent) -> bool {
    match event {
        ServerEvent::Accepted => takes_connection(state) && state.last_id < u64::MAX,
        ServerEvent::Ended => state.active > 0,
        ServerEvent::Shutdown => true,
    }
}

/// The server after an event.
pub open spec fn after(state: ServerState, event: ServerEvent) -> ServerState {
    match event {
        ServerEvent::Accepted => ServerState {
            active: state.active + 1,
            last_id: state.last_id + 1,
            open: state.open,
        },
        ServerEvent::Ended => ServerState {
            active: (state.active - 1) as nat,
            last_id: state.last_id,
            open: state.open,
        },
        ServerEvent::Shutdown => ServerState {
            active: state.active,
            last_id: state.last_id,
            open: false,
        },
    }
}

/// What is to be done about a connection that was made.
#[derive(Debug)]
pub enum ConnectionAction {
    /// Serve the connection under the id.
    Serve { request_id: u64 },
    /// Stop serving.
    Stop(Failure),
}

impl Connections {
    /// What the server is.
    pub closed spec fn view(&self) -> ServerState {
        ServerState { active: self.active as nat, last_id: self.last_id as nat, open: self.open }
    }

    #[verifier::type_invariant]
    spec fn within_limit(&self) -> bool {
        self.active <= MAX_CONNECTIONS
    }

    /// A server without connections.
    pub fn new() -> (r: Self)
        ensures
            r@ == started(),
    {
        Connections { active: 0, last_id: 0, open: true }
    }

    /// Whether a further connection is taken.
    pub fn accepts(&self) -> (r: bool)
        ensures
            r == takes_connection(self@),
            self@.active <= MAX_CONNECTIONS,
    {
        proof {
            use_type_invariant(self);
        }
        self.open && self.active < MAX_CONNECTIONS
    }

    /// Whether a server can end, with success: once it was shut down and no connection is being
    /// served any more, or its time of grace is over.
    pub fn is_over(&self, grace_over: bool) -> (r: bool)
        ensures
            r == (!self@.open && (self@.active == 0 || grace_over)),
    {
        !self.open && (self.active == 0 || grace_over)
    }

    /// Which of the signals that have come is to be handled: a shutdown before anything else, then
    /// a request that ended, and a connection only where a further one is taken.
    pub fn next_signal(&self, shutdown: bool, request_ended: bool, connection_made: bool) -> (r:
        Option<ServerSignal>)
        ensures
            r == if shutdown {
                Some(ServerSignal::Shutdown)
            } else if request_ended {
                Some(ServerSignal::RequestEnded)
            } else if connection_made && takes_connection(self@) {
                Some(ServerSignal::ConnectionMade)
            } else {
                None
            },
    {
        if shutdown {
            Some(ServerSignal::Shutdown)
        } else if request_ended {
            Some(ServerSignal::RequestEnded)
        } else if connection_made && self.accepts() {
            Some(ServerSignal::ConnectionMade)
        } else {
            None
        }
    }

    /// Takes a connection that was made, or that failed: it is served under the next id.
    pub fn accept(&mut self, made: Result<(), String>) -> (action: ConnectionAction)
        requires
            takes_connection(old(self)@),
        ensures
            match made {
                Err(error) => {
                    &&& action matches ConnectionAction::Stop(failure)
                    &&& failure.tells("accepting remote CLI connection"@, Some(error))
                    &&& final(self)@ == old(self)@
                },
                Ok(_) => if can_happen(old(self)@, ServerEvent::Accepted) {
                    &&& action matches ConnectionAction::Serve { request_id }
                    &&& final(self)@ == after(old(self)@, ServerEvent::Accepted)
                    &&& request_id == final(self)@.last_id
                } else {
                    &&& action matches ConnectionAction::Stop(failure)
                    &&& failure.tells("remote CLI request ID overflow"@, None)
                    &&& final(self)@ == old(self)@
                },
            },
    {
        match made {
            Err(error) => ConnectionAction::Stop(
                Failure::caused("accepting remote CLI connection", error),
            ),
            Ok(_) => match self.last_id.checked_add(1) {
                Some(request_id) => {
                    self.last_id = request_id;
                    self.active = self.active + 1;
                    ConnectionAction::Serve { request_id }
                },
                None => ConnectionAction::Stop(Failure::new("remote CLI request ID overflow")),
            },
        }
    }

    /// Notes that a connection is no longer served. One that failed does not stop the server.
    pub fn request_ended(&mut self)
        requires
            can_happen(old(self)@, ServerEvent::Ended),
        ensures
            final(self)@ == after(old(self)@, ServerEvent::Ended),
    {
        proof {
            use_type_invariant(&*self);
        }
        self.active = self.active - 1;
    }

    /// Shuts the server down: it takes no further connection.
    pub fn shut_down(&mut self)
        ensures
            final(self)@ == after(old(self)@, ServerEvent::Shutdown),
    {
        proof {
            use_type_invariant(&*self);
        }
        self.open = false;
    }
}

/// What a server is after a run of events.
pub open spec fn state_after(events: Seq<ServerEvent>) -> ServerState
    decreases events.len(),
{
    if events.len() == 0 {
        started()
    } else {
        after(state_after(events.drop_last()), events.last())
    }
}

/// The events can happen to a server, one after another from its start.
pub open spec fn is_run(events: Seq<ServerEvent>) -> bool
    decreases events.len(),
{
    events.len() == 0 || is_run(events.drop_last()) && can_happen(
        state_after(events.drop_last()),
        events.last(),
    )
}

/// The ids under which the connections of a run are served, in the order in which they were taken.
pub open spec fn ids_served(events: Seq<ServerEvent>) -> Seq<nat>
    decreases events.len(),
{
    if events.len() == 0 {
        Seq::empty()
    } else if events.last() == ServerEvent::Accepted {
        ids_served(events.drop_last()).push(state_after(events).last_id)
    } else {
        ids_served(events.drop_last())
    }
}

/// The number of events of a kind in a run.
pub open spec fn count_of(events: Seq<ServerEvent>, kind: ServerEvent) -> nat {
    events.filter(|e: ServerEvent| e == kind).len()
}

/// Over any run of a server, the first connection is served under the id 1, the second under 2 and
/// so on; at no time are more connections being served than the limit, and those that are being
/// served are those that were taken and have not ended; the server is open exactly until it is shut
/// down, and takes no connection after that.
pub proof fn connections_are_served_in_order(events: Seq<ServerEvent>)
    requires
        is_run(events),
    ensures
        ids_served(events).len() == count_of(events, ServerEvent::Accepted),
        forall|k: int| 0 <= k < ids_served(events).len() ==> #[trigger] ids_served(events)[k] == k + 1,
        state_after(events).last_id == ids_served(events).len(),
        forall|n: int|
            0 <= n <= events.len() ==> state_after(#[trigger] events.take(n)).active
                <= MAX_CONNECTIONS,
        state_after(events).active == count_of(events, ServerEvent::Accepted) - count_of(
            events,
            ServerEvent::Ended,
        ),
        state_after(events).open <==> !events.contains(ServerEvent::Shutdown),
        forall|i: int, j: int|
            0 <= i < j < events.len() && #[trigger] events[i] == ServerEvent::Shutdown
                ==> #[trigger] events[j] != ServerEvent::Accepted,
    decreases events.len(),
{
    reveal(Seq::filter);
    assert(events.take(events.len() as int) =~= events);
    if events.len() > 0 {
        let rest = events.drop_last();
        let last = events.last();
        connections_are_served_in_order(rest);
        assert(events =~= rest.push(last));
        assert(rest.take(rest.len() as int) =~= rest);
        assert forall|n: int| 0 <= n <= events.len() implies state_after(
            #[trigger] events.take(n),
        ).active <= MAX_CONNECTIONS by {
            if n < events.len() {
                assert(events.take(n) =~= rest.take(n));
            }
        }
        if rest.contains(ServerEvent::Shutdown) {
            let i = choose|i: int| 0 <= i < rest.len() && rest[i] == ServerEvent::Shutdown;
            assert(events[i] == ServerEvent::Shutdown);
        }
        if last == ServerEvent::Shutdown {
            assert(events[events.len() - 1] == ServerEvent::Shutdown);
        }
        assert forall|i: int, j: int|
            0 <= i < j < events.len() && #[trigger] events[i] == ServerEvent::Shutdown implies
            #[trigger] events[j] != ServerEvent::Accepted by {
            assert(rest[i] == ServerEvent::Shutdown);
            if j < rest.len() {
                assert(rest[j] == events[j]);
            } else {
                assert(rest.contains(ServerEvent::Shutdown));
            }
        }
    }
}

/// How reading a request went.
pub enum Incoming {
    /// It took too long.
    TimedOut(String),
    Failed(String),
    /// A message that is no request to open paths.
    Unexpected,
    Open(OpenRemoteCliPaths),
}

/// What is waited for while a request is with the editor.
#[derive(Clone, Copy, Debug, PartialEq, Eq, Structural)]
pub enum RequestSignal {
    Answered,
    ConnectionChanged,
    InputReceived,
}

/// Which of the signals that have come is to be handled: an answer wins over a connection that was
/// lost meanwhile, and that over anything from the command line.
pub fn next_request_signal(answered: bool, connection_changed: bool, input_received: bool) -> (r:
    Option<RequestSignal>)
    ensures
        r == if answered {
            Some(RequestSignal::Answered)
        } else if connection_changed {
            Some(RequestSignal::ConnectionChanged)
        } else if input_received {
            Some(RequestSignal::InputReceived)
        } else {
            None
        },
{
    if answered {
        Some(RequestSignal::Answered)
    } else if connection_changed {
        Some(RequestSignal::ConnectionChanged)
    } else if input_received {
        Some(RequestSignal::InputReceived)
    } else {
        None
    }
}

/// What becomes known while a connection is being served.
pub enum ConnectionEvent {
    /// The request was read; `connected` tells whether the editor is connected.
    Read { incoming: Incoming, connected: bool },
    /// The editor answered the request.
    Answered(Result<(), String>),
    /// The connection to the editor was lost, or made anew.
    ConnectionChanged,
    /// The command line sent something more or closed the connection, or reading it failed.
    InputReceived(Result<(), String>),
    /// The reply was written, or writing it failed.
    Written(Result<(), String>),
    /// Writing the reply took too long.
    WriteTimedOut(String),
}

/// What is to be done next to serve a connection.
#[derive(Debug)]
pub enum ServeAction {
    /// Send the request on to the editor.
    Forward(OpenRemoteCliPaths),
    /// Reply to the command line.
    Reply(Reply),
    /// Take the request of the project and the id back from the editor, then reply to the command
    /// line.
    CancelAndReply { project_id: u64, request_id: u64, reply: Reply },
    Finish(Result<(), Failure>),
}

impl ServeAction {
    /// The command line is told of an error.
    pub open spec fn replies_error(&self, message: Seq<char>) -> bool {
        self matches ServeAction::Reply(Reply::Error(error)) && error.is_internal(message)
    }

    /// The request is taken back, and the command line is told of an error.
    pub open spec fn cancels(&self, project: u64, id: u64, message: Seq<char>) -> bool {
        &&& self matches ServeAction::CancelAndReply {
            project_id,
            request_id,
            reply: Reply::Error(error),
        }
        &&& project_id == project
        &&& request_id == id
        &&& error.is_internal(message)
    }

    /// The connection ends with a failure.
    pub open spec fn fails_with(&self, message: Seq<char>, cause: Option<String>) -> bool {
        self matches ServeAction::Finish(Err(failure)) && failure.tells(message, cause)
    }
}

/// Serves a connection, step by step: the request goes to the editor in the name of the project and
/// under the id of the connection, whatever the command line put there.
pub fn serve_connection(project_id: u64, request_id: u64, event: ConnectionEvent) -> (action:
    ServeAction)
    ensures
        match event {
            ConnectionEvent::Read { incoming, connected } => match incoming {
                Incoming::TimedOut(error) => action.replies_error(
                    "timed out reading remote CLI request"@ + ": "@ + error@,
                ),
                Incoming::Failed(error) => action.replies_error(error@),
                Incoming::Unexpected => action.replies_error("expected a remote CLI open request"@),
                Incoming::Open(request) => if connected {
                    &&& action matches ServeAction::Forward(forwarded)
                    &&& forwarded == (OpenRemoteCliPaths {
                        project_id,
                        request_id,
                        paths: request.paths,
                        wait: request.wait,
                    })
                } else {
                    action.replies_error("Zed remote session is disconnected"@)
                },
            },
            ConnectionEvent::Answered(Ok(_)) => action matches ServeAction::Reply(Reply::Ack),
            ConnectionEvent::Answered(Err(error)) => action.replies_error(error@),
            ConnectionEvent::ConnectionChanged => action.cancels(
                project_id,
                request_id,
                "Zed remote connection was lost before the request completed"@,
            ),
            ConnectionEvent::InputReceived(Ok(_)) => action.cancels(
                project_id,
                request_id,
                "remote CLI disconnected before the request completed"@,
            ),
            ConnectionEvent::InputReceived(Err(error)) => action.cancels(
                project_id,
                request_id,
                "reading remote CLI connection"@ + ": "@ + error@,
            ),
            ConnectionEvent::Written(Ok(_)) => action matches ServeAction::Finish(Ok(_)),
            ConnectionEvent::Written(Err(error)) => action.fails_with(error@, None),
            ConnectionEvent::WriteTimedOut(error) => action.fails_with(
                "timed out writing remote CLI response"@,
                Some(error),
            ),
        },
{
    match event {
        ConnectionEvent::Read { incoming, connected } => match incoming {
            Incoming::TimedOut(error) => refuse(
                Failure::caused("timed out reading remote CLI request", error).to_line(),
            ),
            Incoming::Failed(error) => refuse(error),
            Incoming::Unexpected => refuse("expected a remote CLI open request".to_string()),
            Incoming::Open(request) => if connected {
                ServeAction::Forward(
                    OpenRemoteCliPaths {
                        project_id,
                        request_id,
                        paths: request.paths,
                        wait: request.wait,
                    },
                )
            } else {
                refuse("Zed remote session is disconnected".to_string())
            },
        },
        ConnectionEvent::Answered(Ok(_)) => ServeAction::Reply(Reply::Ack),
        ConnectionEvent::Answered(Err(error)) => refuse(error),
        ConnectionEvent::ConnectionChanged => cancel(
            project_id,
            request_id,
            "Zed remote connection was lost before the request completed".to_string(),
        ),
        ConnectionEvent::InputReceived(Ok(_)) => cancel(
            project_id,
            request_id,
            "remote CLI disconnected before the request completed".to_string(),
        ),
        ConnectionEvent::InputReceived(Err(error)) => cancel(
            project_id,
            request_id,
            Failure::caused("reading remote CLI connection", error).to_line(),
        ),
        ConnectionEvent::Written(Ok(_)) => ServeAction::Finish(Ok(())),
        ConnectionEvent::Written(Err(error)) => ServeAction::Finish(
            Err(Failure::new(error.as_str())),
        ),
        ConnectionEvent::WriteTimedOut(error) => ServeAction::Finish(
            Err(Failure::caused("timed out writing remote CLI response", error)),
        ),
    }
}

/// Tells the command line of an error.
fn refuse(message: String) -> (action: ServeAction)
    ensures
        action.replies_error(message@),
{
    ServeAction::Reply(Reply::Error(RemoteError::internal(message)))
}

/// Takes a request back, and tells the command line of an error.
fn cancel(project_id: u64, request_id: u64, message: String) -> (action: ServeAction)
    ensures
        action.cancels(project_id, request_id, message@),
{
    ServeAction::CancelAndReply {
        project_id,
        request_id,
        reply: Reply::Error(RemoteError::internal(message)),
    }
}

} // verus!
