use agent_lsp::remote_cli::client::{run_cli, CliAction, CliEvent, RemoteCliArgs};
use agent_lsp::remote_cli::launcher::launcher_script;
use agent_lsp::remote_cli::paths::{
    resolve_cli_path, Parent, PathAction, PathEvent, PathResolution, Stat,
};
use agent_lsp::remote_cli::server::{
    next_request_signal, serve_connection, ConnectionAction, ConnectionEvent, Connections, Incoming,
    RequestSignal, ServeAction, ServerSignal, MAX_CONNECTIONS,
};
use agent_lsp::remote_cli::wire::{
    read_cli_message, ErrorCode, Failure, OpenRemoteCliPaths, RemoteCliPath, RemoteError, Reply,
    MAX_MESSAGE_BYTES,
};
use clap::{Arg, ArgAction, Command};

const PROJECT: u64 = 0;

fn parse(arguments: &[&str]) -> Result<RemoteCliArgs, clap::Error> {
    let flag = |name: &'static str, short: char| {
        Arg::new(name).short(short).long(name).action(ArgAction::SetTrue)
    };
    let matches = Command::new("zed")
        .arg(flag("wait", 'w'))
        .arg(flag("add", 'a'))
        .arg(flag("version", 'v'))
        .arg(Arg::new("paths").num_args(1..).action(ArgAction::Append))
        .try_get_matches_from(arguments)?;
    Ok(RemoteCliArgs {
        wait: matches.get_flag("wait"),
        add: matches.get_flag("add"),
        version: matches.get_flag("version"),
        paths: matches
            .get_many::<String>("paths")
            .map(|paths| paths.cloned().collect())
            .unwrap_or_default(),
    })
}

fn failure(action: CliAction) -> String {
    match action {
        CliAction::Finish(Err(failure)) => failure.to_line(),
        other => panic!("no failure: {other:?}"),
    }
}

fn open_request(wait: bool) -> OpenRemoteCliPaths {
    OpenRemoteCliPaths {
        project_id: 999,
        request_id: 999,
        paths: vec![RemoteCliPath {
            path: "/repo/file.txt".to_string(),
            row: Some(3),
            column: Some(2),
            is_directory: false,
        }],
        wait,
    }
}

fn read(wait: bool) -> ConnectionEvent {
    ConnectionEvent::Read { incoming: Incoming::Open(open_request(wait)), connected: true }
}

#[test]
fn test_remote_cli_arguments() {
    let args = parse(&["zed", "--wait", "--add", "file:10:2"]).unwrap();
    assert!(args.wait);
    assert!(args.add);
    assert_eq!(args.paths, ["file:10:2"]);
    let action = run_cli(&args, "1.0", PROJECT, CliEvent::DirectoryRead(Ok(())));
    assert!(matches!(action, CliAction::ResolvePaths(paths) if paths == ["file:10:2"]));
    let args = parse(&["zed", "file"]).unwrap();
    assert!(!args.wait);
    assert!(parse(&["zed", "--new", "file"]).is_err());
}

#[test]
fn test_remote_cli_launcher_quotes_executable() {
    assert_eq!(
        launcher_script("/some directory/zed's server"),
        "#!/bin/sh\nexec '/some directory/zed'\\''s server' cli \"$@\"\n"
    );
}

#[test]
fn test_remote_cli_rejects_oversized_messages() {
    let bytes = (MAX_MESSAGE_BYTES + 1).to_le_bytes();
    let mut buffer = Vec::new();
    assert!(read_cli_message(bytes, &mut buffer).is_err());
    assert!(buffer.is_empty());
}

#[test]
fn messages_within_the_limit_get_room() {
    let mut buffer = vec![7u8; 3];
    assert_eq!(read_cli_message([1, 2, 0, 0], &mut buffer).ok(), Some(513));
    assert_eq!(buffer, vec![0u8; 513]);
    assert_eq!(read_cli_message(MAX_MESSAGE_BYTES.to_le_bytes(), &mut buffer).ok(), Some(1048576));
    let refused = read_cli_message([255, 255, 255, 255], &mut buffer).unwrap_err();
    assert_eq!(refused.to_line(), "remote CLI message exceeds size limit");
    assert_eq!(buffer.len(), 1048576);
}

#[test]
fn test_remote_cli_socket_success() {
    for wait in [false, true] {
        let request = match serve_connection(PROJECT, 42, read(wait)) {
            ServeAction::Forward(request) => request,
            other => panic!("not forwarded: {other:?}"),
        };
        assert_eq!((request.project_id, request.request_id), (PROJECT, 42));
        assert_eq!(request.wait, wait);
        assert_eq!(request.paths.first().expect("path").row, Some(3));
        assert_eq!(next_request_signal(false, false, false), None);
        assert!(matches!(
            serve_connection(PROJECT, 42, ConnectionEvent::Answered(Ok(()))),
            ServeAction::Reply(Reply::Ack)
        ));
        assert!(matches!(
            serve_connection(PROJECT, 42, ConnectionEvent::Written(Ok(()))),
            ServeAction::Finish(Ok(()))
        ));
    }
}

#[test]
fn test_remote_cli_completed_response_wins_disconnect() {
    assert_eq!(next_request_signal(true, true, true), Some(RequestSignal::Answered));
    assert!(matches!(
        serve_connection(PROJECT, 42, ConnectionEvent::Answered(Ok(()))),
        ServeAction::Reply(Reply::Ack)
    ));
}

#[test]
fn test_remote_cli_disconnect_cancels_request() {
    assert_eq!(next_request_signal(false, true, true), Some(RequestSignal::ConnectionChanged));
    assert!(matches!(
        serve_connection(PROJECT, 42, ConnectionEvent::ConnectionChanged),
        ServeAction::CancelAndReply { project_id: PROJECT, request_id: 42, reply: Reply::Error(e) }
            if e.message == "Zed remote connection was lost before the request completed"
    ));
}

#[test]
fn test_remote_cli_socket_eof_cancels_request() {
    assert_eq!(next_request_signal(false, false, true), Some(RequestSignal::InputReceived));
    assert!(matches!(
        serve_connection(PROJECT, 42, ConnectionEvent::InputReceived(Ok(()))),
        ServeAction::CancelAndReply { project_id: PROJECT, request_id: 42, reply: Reply::Error(e) }
            if e.message == "remote CLI disconnected before the request completed"
    ));
}

#[test]
fn connections_that_fail_are_told() {
    let told = |event| match serve_connection(PROJECT, 1, event) {
        ServeAction::Reply(Reply::Error(error))
        | ServeAction::CancelAndReply { reply: Reply::Error(error), .. } => {
            assert_eq!(error.code, ErrorCode::Internal);
            assert!(error.tags.is_empty());
            error.message
        }
        ServeAction::Finish(Err(failure)) => failure.to_line(),
        other => panic!("no error: {other:?}"),
    };
    let incoming = |incoming, connected| ConnectionEvent::Read { incoming, connected };
    assert_eq!(
        told(incoming(Incoming::TimedOut("too long".to_string()), true)),
        "timed out reading remote CLI request: too long"
    );
    assert_eq!(told(incoming(Incoming::Failed("eof".to_string()), true)), "eof");
    assert_eq!(told(incoming(Incoming::Unexpected, true)), "expected a remote CLI open request");
    assert_eq!(
        told(incoming(Incoming::Open(open_request(true)), false)),
        "Zed remote session is disconnected"
    );
    assert_eq!(told(ConnectionEvent::Answered(Err("no".to_string()))), "no");
    assert_eq!(
        told(ConnectionEvent::InputReceived(Err("reset".to_string()))),
        "reading remote CLI connection: reset"
    );
    assert_eq!(told(ConnectionEvent::Written(Err("pipe".to_string()))), "pipe");
    assert_eq!(
        told(ConnectionEvent::WriteTimedOut("too long".to_string())),
        "timed out writing remote CLI response: too long"
    );
}

#[test]
fn connections_are_limited_and_numbered() {
    let mut connections = Connections::new();
    for id in 1..=MAX_CONNECTIONS as u64 {
        assert!(connections.accepts());
        assert!(matches!(
            connections.accept(Ok(())),
            ConnectionAction::Serve { request_id } if request_id == id
        ));
    }
    assert!(!connections.accepts());
    assert_eq!(connections.next_signal(false, false, true), None);
    assert_eq!(connections.next_signal(false, true, true), Some(ServerSignal::RequestEnded));
    assert_eq!(connections.next_signal(true, true, true), Some(ServerSignal::Shutdown));
    connections.request_ended();
    assert_eq!(connections.next_signal(false, false, true), Some(ServerSignal::ConnectionMade));
    assert!(matches!(
        connections.accept(Ok(())),
        ConnectionAction::Serve { request_id: 65 }
    ));
    connections.request_ended();
    assert!(matches!(
        connections.accept(Err("closed".to_string())),
        ConnectionAction::Stop(failure)
            if failure.to_line() == "accepting remote CLI connection: closed"
    ));
    assert!(!connections.is_over(true));
    connections.shut_down();
    assert!(!connections.accepts());
    assert_eq!(connections.next_signal(false, false, true), None);
    assert!(!connections.is_over(false));
    assert!(connections.is_over(true));
    let mut idle = Connections::new();
    idle.shut_down();
    assert!(idle.is_over(false));
}

#[test]
fn the_command_line_runs_to_its_end() {
    let args = RemoteCliArgs { wait: true, add: false, version: false, paths: vec![] };
    let run = |event| run_cli(&args, "1.0", 3, event);
    assert!(matches!(run(CliEvent::Started), CliAction::SeekSocket));
    assert!(matches!(run(CliEvent::SocketSought { found: true }), CliAction::ReadDirectory));
    assert!(matches!(
        run(CliEvent::DirectoryRead(Ok(()))),
        CliAction::ResolvePaths(paths) if paths == ["."]
    ));
    let request = match run(CliEvent::PathsResolved(Ok(open_request(false).paths))) {
        CliAction::Connect(request) => request,
        other => panic!("no request: {other:?}"),
    };
    assert_eq!((request.project_id, request.request_id, request.wait), (3, 0, true));
    assert!(matches!(run(CliEvent::Connected(Ok(()))), CliAction::MeasureRequest));
    assert!(matches!(run(CliEvent::Measured { bytes: 1048576 }), CliAction::SendRequest));
    assert_eq!(failure(run(CliEvent::Measured { bytes: 1048577 })), "too many paths to open");
    assert!(matches!(run(CliEvent::Sent(Ok(()))), CliAction::AwaitReply));
    assert!(matches!(run(CliEvent::Received(Ok(Reply::Ack))), CliAction::Finish(Ok(()))));
    assert_eq!(failure(run(CliEvent::Received(Ok(Reply::Error(RemoteError::internal("no".to_string())))))), "no");
    assert_eq!(
        failure(run(CliEvent::Received(Ok(Reply::Other)))),
        "invalid response from Zed remote session"
    );
    assert_eq!(
        failure(run(CliEvent::Received(Err("eof".to_string())))),
        "Zed remote session ended before the request completed: eof"
    );
    assert_eq!(
        failure(run(CliEvent::SocketSought { found: false })),
        "No Zed remote session. Run zed from a terminal opened in a Zed remote workspace."
    );
    assert_eq!(
        failure(run(CliEvent::DirectoryRead(Err("gone".to_string())))),
        "reading current directory: gone"
    );
    assert_eq!(
        failure(run(CliEvent::Connected(Err("refused".to_string())))),
        "connecting to Zed remote session; open a new terminal if the session restarted: refused"
    );
    let version = RemoteCliArgs { version: true, ..args.clone() };
    assert!(matches!(
        run_cli(&version, "1.0", 3, CliEvent::Started),
        CliAction::Print(line) if line == "Zed remote 1.0"
    ));
}

#[test]
fn literal_paths_have_no_position() {
    let (mut resolution, action) = resolve_cli_path("file:10", None);
    assert!(matches!(action, PathAction::CheckLiteral(path) if path == "file:10"));
    let exists = Stat::Exists { is_directory: false };
    let action = resolution.step(PathEvent::LiteralChecked(exists.clone()));
    assert!(matches!(action, PathAction::CheckLiteralPath));
    let action = resolution.step(PathEvent::PathChecked { stat: exists, has_parent: true });
    assert!(matches!(action, PathAction::Canonicalize));
    let action = resolution.step(PathEvent::Canonicalized(Ok(())));
    assert!(matches!(action, PathAction::TellPath));
    match resolution.step(PathEvent::Known(Some("/d/file:10".to_string()))) {
        PathAction::Finish(Ok(path)) => {
            assert_eq!(path.path, "/d/file:10");
            assert_eq!(path.row, None);
            assert!(!path.is_directory);
        }
        other => panic!("not resolved: {other:?}"),
    }
}

#[test]
fn missing_paths_keep_their_position() {
    let (mut resolution, _) = resolve_cli_path("new file 日本語:2", Some("/home/me"));
    let action = resolution.step(PathEvent::LiteralChecked(Stat::NotFound));
    assert!(matches!(action, PathAction::ParsePosition));
    let action = resolution.step(PathEvent::Parsed { row: Some(2), column: None });
    assert!(matches!(action, PathAction::CheckPath));
    let action = resolution.step(PathEvent::PathChecked { stat: Stat::NotFound, has_parent: true });
    assert!(matches!(action, PathAction::CanonicalizeParent));
    let action = resolution.step(PathEvent::ParentCanonicalized(Parent::Resolved));
    assert!(matches!(action, PathAction::JoinParent));
    match resolution.step(PathEvent::Known(Some("/d/new file 日本語".to_string()))) {
        PathAction::Finish(Ok(path)) => assert_eq!((path.row, path.column), (Some(2), None)),
        other => panic!("not resolved: {other:?}"),
    }
}

#[test]
fn paths_that_cannot_be_read_are_told() {
    let told = |event| {
        let mut resolution = PathResolution { row: None, column: None, is_directory: false };
        match resolution.step(event) {
            PathAction::Finish(Err(failure)) => failure.to_line(),
            other => panic!("no failure: {other:?}"),
        }
    };
    let stat = Stat::Failed { path: "/x".to_string(), error: "denied".to_string() };
    assert_eq!(told(PathEvent::LiteralChecked(stat.clone())), "reading /x: denied");
    assert_eq!(told(PathEvent::PathChecked { stat, has_parent: true }), "reading /x: denied");
    assert_eq!(
        told(PathEvent::ParentCanonicalized(Parent::Failed {
            path: "/y".to_string(),
            error: "loop".to_string(),
        })),
        "resolving /y: loop"
    );
    assert_eq!(told(PathEvent::Canonicalized(Err("loop".to_string()))), "loop");
    assert_eq!(told(PathEvent::Known(None)), "remote CLI paths must be valid UTF-8");
}

#[test]
fn tildes_stand_for_the_home_directory() {
    let expanded = |value: &str, home| match resolve_cli_path(value, home).1 {
        PathAction::CheckLiteral(path) => path,
        other => panic!("not begun: {other:?}"),
    };
    let home = Some("/home/me");
    assert_eq!(expanded("a/~", home), "a/~");
    assert_eq!(expanded("~someone/a", home), "~someone/a");
    assert_eq!(expanded("~", home), "/home/me");
    assert_eq!(expanded("~/a b", home), "/home/me/a b");
    assert_eq!(expanded("~/a b", None), "~/a b");
}

#[test]
fn failures_are_told_with_their_cause() {
    assert_eq!(Failure::new("a").to_line(), "a");
    assert_eq!(Failure::caused("a", "b: c".to_string()).to_line(), "a: b: c");
}
