//! What goes over the socket between the command line and the server, and how it can fail.

use vstd::prelude::*;
use vstd::string::*;

use crate::text::concat3;

verus! {

/// The environment variable that names the socket of the session.
pub const SOCKET_ENV: &'static str = "ZED_REMOTE_CLI_SOCKET";

/// The size of the largest message, in bytes.
pub const MAX_MESSAGE_BYTES: u32 = 1024 * 1024;

/// The number of seconds for which a message may take to be read or written.
pub const IO_TIMEOUT_SECONDS: u64 = 10;

/// A failure, with what caused it.
#[derive(Clone, Debug)]
pub struct Failure {
    pub message: String,
    pub cause: Option<String>,
}

impl Failure {
    /// The failure tells the message, caused by `cause`.
    pub open spec fn tells(&self, message: Seq<char>, cause: Option<String>) -> bool {
        &&& self.message@ == message
        &&& self.cause == cause
    }

    /// The failure with its cause, on one line.
    pub open spec fn line(&self) -> Seq<char> {
        match self.cause {
            Some(cause) => self.message@ + ": "@ + cause@,
            None => self.message@,
        }
    }

    /// The failure with its cause, on one line.
    pub fn to_line(&self) -> (r: String)
        ensures
            r@ == self.line(),
    {
        match &self.cause {
            Some(cause) => concat3(self.message.as_str(), ": ", cause.as_str()),
            None => self.message.as_str().to_string(),
        }
    }

    /// A failure without a further cause.
    pub fn new(message: &str) -> (r: Self)
        ensures
            r.tells(message@, None),
    {
        Failure { message: message.to_string(), cause: None }
    }

    /// A failure that was caused by another.
    pub fn caused(message: &str, cause: String) -> (r: Self)
        ensures
            r.tells(message@, Some(cause)),
    {
        Failure { message: message.to_string(), cause: Some(cause) }
    }
}

/// A file or directory that is to be opened, with the place in it.
#[derive(Clone, Debug)]
pub struct RemoteCliPath {
    pub path: String,
    pub row: Option<u32>,
    pub column: Option<u32>,
    pub is_directory: bool,
}

/// A request to open paths.
#[derive(Clone, Debug)]
pub struct OpenRemoteCliPaths {
    pub project_id: u64,
    pub request_id: u64,
    pub paths: Vec<RemoteCliPath>,
    pub wait: bool,
}

/// What kind of error a request met with.
#[derive(Clone, Copy, Debug, PartialEq, Eq, Structural)]
pub enum ErrorCode {
    Internal,
    /// One of the kinds that this server does not send.
    Other(i32),
}

/// The error that a request met with.
#[derive(Clone, Debug)]
pub struct RemoteError {
    pub message: String,
    pub code: ErrorCode,
    pub tags: Vec<String>,
}

impl RemoteError {
    /// The error is an internal one with the message, and without tags.
    pub open spec fn is_internal(&self, message: Seq<char>) -> bool {
        &&& self.message@ == message
        &&& self.code == ErrorCode::Internal
        &&& self.tags@.len() == 0
    }

    /// An internal error.
    pub fn internal(message: String) -> (r: Self)
        ensures
            r.is_internal(message@),
    {
        RemoteError { message, code: ErrorCode::Internal, tags: Vec::new() }
    }
}

/// What a message that answers a request says.
#[derive(Clone, Debug)]
pub enum Reply {
    Ack,
    Error(RemoteError),
    /// Something that is no answer.
    Other,
}

/// The number that four bytes stand for, the lowest first.
pub open spec fn little_endian(bytes: Seq<u8>) -> int {
    bytes[0] + 256 * bytes[1] + 65536 * bytes[2] + 16777216 * bytes[3]
}

/// Begins to read a message, of which the first four bytes give the length. Where that is within
/// the limit the buffer is made ready for it; otherwise nothing is kept of the message.
pub fn read_cli_message(header: [u8; 4], buffer: &mut Vec<u8>) -> (r: Result<u32, Failure>)
    ensures
        if little_endian(header@) <= MAX_MESSAGE_BYTES {
            &&& r matches Ok(length)
            &&& length == little_endian(header@)
            &&& final(buffer)@ == Seq::new(length as nat, |i: int| 0u8)
        } else {
            &&& r matches Err(failure)
            &&& failure.tells("remote CLI message exceeds size limit"@, None)
            &&& final(buffer)@ == old(buffer)@
        },
{
    let length: u32 = header[0] as u32 + 256 * (header[1] as u32) + 65536 * (header[2] as u32)
        + 16777216 * (header[3] as u32);
    if length > MAX_MESSAGE_BYTES {
        return Err(Failure::new("remote CLI message exceeds size limit"));
    }
    buffer.clear();
    buffer.resize(length as usize, 0);
    assert(buffer@ =~= Seq::new(length as nat, |i: int| 0u8));
    Ok(length)
}

} // verus!
