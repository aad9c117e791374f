//! The commands of the remote-control protocol, as far as they compute:
//! what a request holds and what the answer to it is.
//!
//! A handler here never touches a disk, a screen or a terminal. Where a
//! command needs one, the caller does that work and hands the handler
//! what came of it.

use vstd::prelude::*;
use vstd::slice::slice_subrange;
use vstd::string::StringExecFns;
use vstd::string::StringSliceAdditionalSpecFns;
use vstd::utf8::encode_utf8;
use bytes::Bytes;
use crate::buffer::{bytes_as_slice, bytes_contents};
use crate::error::ProtocolError;
use crate::frame::{Frame, FrameView, MAX_FRAME_SIZE, SUPPORTED_VERSION};

verus! {

/// Command: report the load of the machine.
pub const CMD_SYS_INFO: u8 = 0x01;

/// Command: log in.
pub const CMD_AUTH: u8 = 0x02;

/// Command: store a file.
pub const CMD_UPLOAD: u8 = 0x03;

/// Command: a line of chat.
pub const CMD_CHAT: u8 = 0x05;

/// Command: take a screenshot.
pub const CMD_SCREENSHOT: u8 = 0x07;

/// Command: shut the server down.
pub const CMD_SHUTDOWN: u8 = 0x99;

/// The frame with the supported version and the given flags and payload,
/// as plain values.
pub open spec fn reply_view(flags: u8, payload: Seq<u8>) -> FrameView {
    FrameView { version: SUPPORTED_VERSION, flags, payload }
}

/// What answering with `payload` under `flags` comes to: the frame, or
/// the refusal of a payload over the size limit.
pub open spec fn reply_spec(flags: u8, payload: Seq<u8>) -> Result<Option<FrameView>, ProtocolError> {
    if payload.len() <= MAX_FRAME_SIZE {
        Ok(Some(reply_view(flags, payload)))
    } else {
        Err(ProtocolError::FrameTooLarge)
    }
}

/// Whether an answer is the one that `expected` describes.
pub open spec fn is_reply(
    r: Result<Option<Frame>, ProtocolError>,
    expected: Result<Option<FrameView>, ProtocolError>,
) -> bool {
    match r {
        Ok(Some(f)) => expected == Ok::<Option<FrameView>, ProtocolError>(Some(f@)),
        Ok(None) => expected == Ok::<Option<FrameView>, ProtocolError>(None),
        Err(e) => expected == Err::<Option<FrameView>, ProtocolError>(e),
    }
}

/// An answer frame with the given flags and payload.
pub fn reply(flags: u8, payload: Bytes) -> (r: Result<Option<Frame>, ProtocolError>)
    ensures
        is_reply(r, reply_spec(flags, bytes_contents(payload))),
{
    match Frame::new(SUPPORTED_VERSION, flags, payload) {
        Ok(frame) => Ok(Some(frame)),
        Err(e) => Err(e),
    }
}

/// An answer frame with the given flags and a text as payload.
pub fn reply_text(flags: u8, text: &str) -> (r: Result<Option<Frame>, ProtocolError>)
    ensures
        is_reply(r, reply_spec(flags, text.spec_bytes())),
{
    reply(flags, Bytes::copy_from_slice(text.as_bytes()))
}

/// Whether two byte strings are the same.
pub fn same_bytes(a: &[u8], b: &[u8]) -> (same: bool)
    ensures
        same == (a@ == b@),
{
    if a.len() != b.len() {
        return false;
    }
    let mut i: usize = 0;
    while i < a.len()
        invariant
            0 <= i <= a.len(),
            a@.len() == b@.len(),
            forall|j: int| 0 <= j < i ==> a@[j] == b@[j],
        decreases a.len() - i,
    {
        if a[i] != b[i] {
            return false;
        }
        i += 1;
    }
    assert(a@ =~= b@);
    true
}

/// Answers a line of chat with a line typed at the server.
pub struct ChatHandler;

impl ChatHandler {
    /// Whether the frame ends the session: its payload is exactly `exit`.
    pub fn ends_session(&self, frame: &Frame) -> (ended: bool)
        ensures
            ended == (frame@.payload == "exit".spec_bytes()),
    {
        same_bytes(bytes_as_slice(frame.payload()), "exit".as_bytes())
    }

    /// The answer to a chat frame. A frame that ends the session is told
    /// so, whatever `line` is. Any other frame is answered with the line
    /// that the server's user typed, or not at all if there is none.
    pub fn handle(&self, frame: &Frame, line: Option<Bytes>) -> (r: Result<
        Option<Frame>,
        ProtocolError,
    >)
        ensures
            is_reply(
                r,
                if frame@.payload == "exit".spec_bytes() {
                    reply_spec(CMD_CHAT, "Session Closed".spec_bytes())
                } else if line is Some {
                    reply_spec(CMD_CHAT, bytes_contents(line->Some_0))
                } else {
                    Ok(None)
                },
            ),
    {
        if self.ends_session(frame) {
            return reply_text(CMD_CHAT, "Session Closed");
        }
        match line {
            Some(text) => reply(CMD_CHAT, text),
            None => Ok(None),
        }
    }
}

/// `String::from_utf8_lossy` reads bytes as UTF-8 text, with the
/// replacement character in place of whatever is no text.
pub uninterp spec fn utf8_lossy(bytes: Seq<u8>) -> Seq<char>;

/// `str::replace` puts `with` in place of every match of `pattern`.
pub uninterp spec fn replaced(text: Seq<char>, pattern: Seq<char>, with: Seq<char>) -> Seq<char>;

/// `String::from_utf8_lossy`, as an owned string.
#[verifier::external_body]
fn text_of(bytes: &[u8]) -> (text: String)
    ensures
        text@ == utf8_lossy(bytes@),
{
    String::from_utf8_lossy(bytes).into_owned()
}

/// `str::replace` with a string as the pattern.
#[verifier::external_body]
fn replace_all(text: &str, pattern: &str, with: &str) -> (out: String)
    ensures
        out@ == replaced(text@, pattern@, with@),
{
    text.replace(pattern, with)
}

/// The parts of an upload request: the file's name and its content.
pub struct Upload<'a> {
    pub name: &'a [u8],
    pub data: &'a [u8],
}

/// The name under which an upload is stored: the name that was asked
/// for as text, with every `..` taken out and then every `/`.
pub open spec fn stored_name(name: Seq<u8>) -> Seq<char> {
    replaced(replaced(utf8_lossy(name), ".."@, ""@), "/"@, ""@)
}

/// Stores a file that the client sends.
pub struct FileUploadHandler;

impl FileUploadHandler {
    /// Where the name of an upload ends in its payload, if the payload
    /// holds one: after the command byte comes the length of the name in
    /// one byte, then the name. A payload of fewer than three bytes is
    /// refused as it always was, with `FrameTooLarge`; one that ends
    /// before its name does is `Incomplete`.
    pub open spec fn name_end(payload: Seq<u8>) -> Result<int, ProtocolError> {
        if payload.len() < 3 {
            Err(ProtocolError::FrameTooLarge)
        } else if 2 + payload[1] > payload.len() {
            Err(ProtocolError::Incomplete)
        } else {
            Ok(2 + payload[1])
        }
    }

    /// Takes an upload request apart: the name, and after it the content,
    /// which is the rest of the payload. A payload that holds no whole
    /// name is refused, as [`FileUploadHandler::name_end`] says.
    pub fn parse<'a>(&self, payload: &'a [u8]) -> (r: Result<Upload<'a>, ProtocolError>)
        ensures
            match r {
                Ok(upload) => {
                    &&& Self::name_end(payload@) matches Ok(end)
                    &&& upload.name@ == payload@.subrange(2, end)
                    &&& upload.data@ == payload@.subrange(end, payload@.len() as int)
                },
                Err(e) => Self::name_end(payload@) == Err::<int, ProtocolError>(e),
            },
    {
        if payload.len() < 3 {
            return Err(ProtocolError::FrameTooLarge);
        }
        let name_len = payload[1] as usize;
        if 2 + name_len > payload.len() {
            return Err(ProtocolError::Incomplete);
        }
        let name = slice_subrange(payload, 2, 2 + name_len);
        let data = slice_subrange(payload, 2 + name_len, payload.len());
        Ok(Upload { name, data })
    }

    /// The name to store an upload under.
    pub fn safe_name(&self, name: &[u8]) -> (safe: String)
        ensures
            safe@ == stored_name(name@),
    {
        let filename = text_of(name);
        let without_dots = replace_all(filename.as_str(), "..", "");
        replace_all(without_dots.as_str(), "/", "")
    }

    /// The answer after the file was stored under `safe_name`.
    pub fn handle(&self, safe_name: &str) -> (r: Result<Option<Frame>, ProtocolError>)
        ensures
            is_reply(r, reply_spec(0x00, encode_utf8("Successfully saved "@ + safe_name@))),
    {
        let mut text = String::from_str("Successfully saved ");
        text.append(safe_name);
        reply_text(0x00, text.as_str())
    }
}

/// Answers with a picture of the server's screen.
pub struct ScreenshotHandler;

impl ScreenshotHandler {
    /// The answer that carries the picture, a PNG file.
    pub fn handle(&self, png: Bytes) -> (r: Result<Option<Frame>, ProtocolError>)
        ensures
            is_reply(r, reply_spec(CMD_SCREENSHOT, bytes_contents(png))),
    {
        reply(CMD_SCREENSHOT, png)
    }
}

/// Answers with the load of the server's machine.
pub struct SysInfoHandler;

impl SysInfoHandler {
    /// A number of bytes in whole mebibytes.
    pub fn mebibytes(bytes: u64) -> (mib: u64)
        ensures
            mib == bytes / 1024 / 1024,
    {
        bytes / 1024 / 1024
    }

    /// The answer that carries the report.
    pub fn handle(&self, stats: &str) -> (r: Result<Option<Frame>, ProtocolError>)
        ensures
            is_reply(r, reply_spec(CMD_SYS_INFO, stats.spec_bytes())),
    {
        reply_text(CMD_SYS_INFO, stats)
    }
}

} // verus!
