//! The remote-control protocol as its two ends speak it: the requests
//! that a client sends, and how the single-peer server reads a request
//! and the client an answer.

use vstd::prelude::*;
use vstd::slice::slice_subrange;
use vstd::string::StringSliceAdditionalSpecFns;
use bytes::Bytes;
use crate::buffer::{bytes_as_slice, bytes_contents};
use crate::error::ProtocolError;
use crate::frame::Frame;
use crate::handlers::{
    is_reply, reply, reply_spec, same_bytes, CMD_AUTH, CMD_CHAT, CMD_SCREENSHOT, CMD_SHUTDOWN,
    CMD_SYS_INFO, CMD_UPLOAD,
};

verus! {

/// What a command byte asks the server for.
#[derive(Debug, Clone, Copy, PartialEq, Eq, Structural)]
pub enum Command {
    Status,
    Upload,
    Chat,
    Screenshot,
    Shutdown,
    Unknown,
}

/// The command that a frame's flags byte stands for.
pub open spec fn command_of(flags: u8) -> Command {
    if flags == CMD_SYS_INFO {
        Command::Status
    } else if flags == CMD_UPLOAD {
        Command::Upload
    } else if flags == CMD_CHAT {
        Command::Chat
    } else if flags == CMD_SCREENSHOT {
        Command::Screenshot
    } else if flags == CMD_SHUTDOWN {
        Command::Shutdown
    } else {
        Command::Unknown
    }
}

/// Reads the command of a request off its flags byte.
pub fn classify(flags: u8) -> (command: Command)
    ensures
        command == command_of(flags),
{
    if flags == CMD_SYS_INFO {
        Command::Status
    } else if flags == CMD_UPLOAD {
        Command::Upload
    } else if flags == CMD_CHAT {
        Command::Chat
    } else if flags == CMD_SCREENSHOT {
        Command::Screenshot
    } else if flags == CMD_SHUTDOWN {
        Command::Shutdown
    } else {
        Command::Unknown
    }
}

/// The byte that parts a file's extension from its content.
pub const UPLOAD_SEPARATOR: u8 = 0x7C;

/// Takes the payload of an upload apart at the first separator: the
/// extension before it, the content after it. Without a separator the
/// payload is no upload.
pub fn split_upload<'a>(payload: &'a [u8]) -> (parts: Option<(&'a [u8], &'a [u8])>)
    ensures
        parts is Some <==> payload@.contains(UPLOAD_SEPARATOR),
        parts matches Some((extension, content)) ==> {
            &&& !extension@.contains(UPLOAD_SEPARATOR)
            &&& payload@ == extension@ + seq![UPLOAD_SEPARATOR] + content@
        },
{
    let mut i: usize = 0;
    while i < payload.len()
        invariant
            0 <= i <= payload.len(),
            forall|j: int| 0 <= j < i ==> payload@[j] != UPLOAD_SEPARATOR,
        decreases payload.len() - i,
    {
        if payload[i] == UPLOAD_SEPARATOR {
            let extension = slice_subrange(payload, 0, i);
            let content = slice_subrange(payload, i + 1, payload.len());
            assert(payload@ =~= extension@ + seq![UPLOAD_SEPARATOR] + content@);
            return Some((extension, content));
        }
        i += 1;
    }
    None
}

/// The server's answer to a request: the same command byte, and what the
/// command came to.
pub fn answer(request: &Frame, outcome: Bytes) -> (r: Result<Option<Frame>, ProtocolError>)
    ensures
        is_reply(r, reply_spec(request@.flags, bytes_contents(outcome))),
{
    reply(request.flags(), outcome)
}

/// The request that opens a session: the password under the login
/// command.
pub fn login_request(password: Bytes) -> (r: Result<Option<Frame>, ProtocolError>)
    ensures
        is_reply(r, reply_spec(CMD_AUTH, bytes_contents(password))),
{
    reply(CMD_AUTH, password)
}

/// Whether the server's answer to a login accepts it.
pub fn login_accepted(answer: &Frame) -> (accepted: bool)
    ensures
        accepted == (answer@.payload == "AUTH_OK".spec_bytes()),
{
    same_bytes(bytes_as_slice(answer.payload()), "AUTH_OK".as_bytes())
}

/// What a client can ask for.
#[derive(Debug)]
pub enum Request {
    Status,
    Screenshot,
    Chat(Bytes),
}

/// The command byte and the payload of a request.
pub open spec fn request_parts(request: Request) -> (u8, Seq<u8>) {
    match request {
        Request::Status => (CMD_SYS_INFO, Seq::empty()),
        Request::Screenshot => (CMD_SCREENSHOT, Seq::empty()),
        Request::Chat(line) => (CMD_CHAT, bytes_contents(line)),
    }
}

/// The frame that carries a request.
pub fn request_frame(request: Request) -> (r: Result<Option<Frame>, ProtocolError>)
    ensures
        is_reply(r, reply_spec(request_parts(request).0, request_parts(request).1)),
{
    match request {
        Request::Status => reply(CMD_SYS_INFO, Bytes::new()),
        Request::Screenshot => reply(CMD_SCREENSHOT, Bytes::new()),
        Request::Chat(line) => reply(CMD_CHAT, line),
    }
}

/// What a client does with an answer.
#[derive(Debug, Clone, Copy, PartialEq, Eq, Structural)]
pub enum Response {
    /// The payload is a picture, to be stored as a file.
    Picture,
    /// The payload is text, to be shown.
    Text,
}

/// Reads the kind of an answer off its flags: the answer to a screenshot
/// request is a picture, every other answer is text.
pub fn response_kind(answer: &Frame) -> (kind: Response)
    ensures
        kind == if answer@.flags == CMD_SCREENSHOT {
            Response::Picture
        } else {
            Response::Text
        },
{
    if answer.flags() == CMD_SCREENSHOT {
        Response::Picture
    } else {
        Response::Text
    }
}

} // verus!
