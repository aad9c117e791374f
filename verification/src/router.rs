//! The remote-control server's routing: who may issue commands, and
//! which handler a command goes to.

use vstd::prelude::*;
use vstd::string::StringExecFns;
use vstd::string::is_ascii_spec_bytes;
use std::collections::HashMap;
use bytes::Bytes;
use crate::buffer::bytes_as_slice;
use crate::frame::{Frame, FrameView, MAX_FRAME_SIZE, SUPPORTED_VERSION};
use crate::handlers::{reply_view, same_bytes, CMD_AUTH, CMD_SYS_INFO, CMD_UPLOAD};

verus! {

/// The handlers that a command can be routed to.
#[derive(Debug, Clone, Copy, PartialEq, Eq, Hash, Structural)]
pub enum Handler {
    SysInfo,
    FileUpload,
    Chat,
    Screenshot,
}

/// Why a frame could not be routed.
#[derive(Debug, Clone, Copy, PartialEq, Eq, Structural)]
pub enum RouteError {
    /// The payload is empty, so it names no command.
    MissingCommandId,
    /// No handler is registered for the command.
    UnknownCommand(u8),
}

/// The table of handlers by command id. The id of a frame's command is
/// the first byte of its payload.
pub struct CommandRouter {
    handlers: HashMap<u8, Handler>,
}

impl View for CommandRouter {
    type V = Map<u8, Handler>;

    closed spec fn view(&self) -> Map<u8, Handler> {
        self.handlers@
    }
}

/// Where a payload is routed to by a table of handlers.
pub open spec fn route(table: Map<u8, Handler>, payload: Seq<u8>) -> Result<Handler, RouteError> {
    if payload.len() == 0 {
        Err(RouteError::MissingCommandId)
    } else if table.contains_key(payload[0]) {
        Ok(table[payload[0]])
    } else {
        Err(RouteError::UnknownCommand(payload[0]))
    }
}

impl CommandRouter {
    /// A router without handlers.
    pub fn new() -> (router: Self)
        ensures
            router@.dom() == Set::<u8>::empty(),
    {
        Self { handlers: HashMap::new() }
    }

    /// Registers `handler` for the command `id`, in place of any other.
    pub fn register(&mut self, id: u8, handler: Handler)
        ensures
            final(self)@ == old(self)@.insert(id, handler),
    {
        broadcast use vstd::std_specs::hash::group_hash_axioms;

        self.handlers.insert(id, handler);
    }

    /// A router with the standard commands: the machine's load and the
    /// upload of files.
    pub fn with_default_commands() -> (router: Self)
        ensures
            router@.dom() == set![CMD_SYS_INFO, CMD_UPLOAD],
            router@[CMD_SYS_INFO] == Handler::SysInfo,
            router@[CMD_UPLOAD] == Handler::FileUpload,
    {
        let mut router = Self::new();
        router.register(CMD_SYS_INFO, Handler::SysInfo);
        router.register(CMD_UPLOAD, Handler::FileUpload);
        assert(router@.dom() =~= set![CMD_SYS_INFO, CMD_UPLOAD]);
        router
    }

    /// The handler for a frame. A frame without payload names no
    /// command, and a command without handler is an error: neither is
    /// passed over in silence.
    pub fn dispatch(&self, frame: &Frame) -> (r: Result<Handler, RouteError>)
        ensures
            r == route(self@, frame@.payload),
    {
        broadcast use vstd::std_specs::hash::group_hash_axioms;

        let payload = bytes_as_slice(frame.payload());
        if payload.len() == 0 {
            return Err(RouteError::MissingCommandId);
        }
        let cmd_id = payload[0];
        match self.handlers.get(&cmd_id) {
            Some(handler) => Ok(*handler),
            None => Err(RouteError::UnknownCommand(cmd_id)),
        }
    }
}

/// The bytes of a text of ASCII characters.
pub open spec fn ascii_bytes(text: Seq<char>) -> Seq<u8> {
    Seq::new(text.len(), |i: int| text[i] as u8)
}

/// The frame that says `text` under `flags`.
fn notice(flags: u8, text: &'static str) -> (frame: Frame)
    requires
        vstd::string::is_ascii(text),
        text@.len() <= MAX_FRAME_SIZE,
    ensures
        frame@ == reply_view(flags, ascii_bytes(text@)),
{
    proof {
        is_ascii_spec_bytes(text);
    }
    let payload = Bytes::copy_from_slice(text.as_bytes());
    match Frame::new(SUPPORTED_VERSION, flags, payload) {
        Ok(frame) => frame,
        Err(_) => vstd::pervasive::unreached(),
    }
}

/// What the server does with a frame.
#[derive(Debug)]
pub enum Step {
    /// Answer with this frame.
    Reply(Frame),
    /// Let this handler deal with the frame.
    Run(Handler),
}

/// A `Step` as plain values.
pub enum StepView {
    Reply(FrameView),
    Run(Handler),
}

impl View for Step {
    type V = StepView;

    open spec fn view(&self) -> StepView {
        match self {
            Step::Reply(frame) => StepView::Reply(frame@),
            Step::Run(handler) => StepView::Run(*handler),
        }
    }
}

/// The name that a client bears once it has logged in.
pub open spec fn admin() -> Seq<char> {
    "Admin"@
}

/// One client's session with the server: nobody at first, and the
/// administrator once the password was given.
pub struct Session {
    password: Vec<u8>,
    authenticated_user: Option<String>,
}

impl Session {
    /// The password that opens the session.
    pub closed spec fn password(&self) -> Seq<u8> {
        self.password@
    }

    /// The user of the session, once there is one.
    pub closed spec fn user(&self) -> Option<Seq<char>> {
        match self.authenticated_user {
            Some(name) => Some(name@),
            None => None,
        }
    }

    /// A session that `password` will open.
    pub fn new(password: Vec<u8>) -> (session: Self)
        ensures
            session.password() == password@,
            session.user() is None,
    {
        Session { password, authenticated_user: None }
    }

    /// The user of the session, if it has one.
    pub fn authenticated_user(&self) -> (user: Option<&String>)
        ensures
            match user {
                Some(name) => self.user() == Some(name@),
                None => self.user() is None,
            },
    {
        self.authenticated_user.as_ref()
    }

    /// What a frame leads to before anybody has logged in: a login with
    /// the right password is accepted, any other login is refused, and any
    /// other command is told to log in first.
    pub open spec fn gate(password: Seq<u8>, frame: FrameView) -> StepView {
        if frame.flags != CMD_AUTH {
            StepView::Reply(reply_view(0x00, ascii_bytes("ERR: Authenticate first"@)))
        } else if frame.payload == password {
            StepView::Reply(reply_view(CMD_AUTH, ascii_bytes("AUTH_OK"@)))
        } else {
            StepView::Reply(reply_view(CMD_AUTH, ascii_bytes("AUTH_FAILED"@)))
        }
    }

    /// Takes in one frame of the client.
    ///
    /// Before the login, the frame is answered as [`Session::gate`] says,
    /// and nothing is routed; the session has a user afterwards if and
    /// only if the frame was a login with the right password. After the
    /// login, the frame goes where the router sends it, and an error of
    /// the router is the session's.
    pub fn on_frame(&mut self, router: &CommandRouter, frame: &Frame) -> (r: Result<
        Step,
        RouteError,
    >)
        ensures
            final(self).password() == old(self).password(),
            old(self).user() is None ==> {
                &&& r matches Ok(step) && step@ == Self::gate(old(self).password(), frame@)
                &&& final(self).user() == if frame@.flags == CMD_AUTH && frame@.payload == old(
                    self,
                ).password() {
                    Some(admin())
                } else {
                    None
                }
            },
            old(self).user() is Some ==> {
                &&& final(self).user() == old(self).user()
                &&& match r {
                    Ok(step) => route(router@, frame@.payload) == Ok::<Handler, RouteError>(
                        step@->Run_0,
                    ) && step@ is Run,
                    Err(e) => route(router@, frame@.payload) == Err::<Handler, RouteError>(e),
                }
            },
    {
        proof {
            reveal_strlit("ERR: Authenticate first");
            reveal_strlit("AUTH_OK");
            reveal_strlit("AUTH_FAILED");
        }
        if self.authenticated_user.is_none() {
            if frame.flags() == CMD_AUTH {
                let given = bytes_as_slice(frame.payload());
                if same_bytes(given, self.password.as_slice()) {
                    self.authenticated_user = Some(String::from_str("Admin"));
                    return Ok(Step::Reply(notice(CMD_AUTH, "AUTH_OK")));
                } else {
                    return Ok(Step::Reply(notice(CMD_AUTH, "AUTH_FAILED")));
                }
            } else {
                return Ok(Step::Reply(notice(0x00, "ERR: Authenticate first")));
            }
        }
        match router.dispatch(frame) {
            Ok(handler) => Ok(Step::Run(handler)),
            Err(e) => Err(e),
        }
    }
}

} // verus!
