//! One routine for every command: a front-end turns each gesture into a
//! `Command`, carrying what the provider gave where the command needs it,
//! and acts on the `Reply`.

use vstd::prelude::*;
use crate::serial_port::{
    bytes_sent,
    clear,
    clear_sequence,
    close,
    get_ports,
    open,
    open_request,
    read,
    selection_complete,
    stop_read,
    OpenRequest,
    Session,
    SessionError,
    SessionModel,
    SessionState,
    READ_TIMEOUT_MS,
};
use crate::baud::parse_baud_spec;

verus! {

/// A command to the controller.
pub enum Command<H> {
    /// List the ports; carries the provider's listing, `None` where the
    /// query failed.
    Enumerate(Option<Vec<String>>),
    /// Check the chosen port and baud rate before an open.
    Select { port: Option<String>, baud: Option<String> },
    /// Take the provider's answer to an open, `None` where it failed.
    Open(Option<H>),
    /// Close the session.
    Close,
    /// Start the reader; carries the second handle that the provider made,
    /// `None` where it could not.
    StartRead(Option<H>),
    /// Stop the reader.
    StopRead,
    /// Write this text.
    Write(String),
    /// Clear the screen.
    ClearScreen,
}

/// What the front-end is to do after a command that was carried out.
pub enum Reply<H> {
    /// Nothing more.
    Done,
    /// Offer these ports for selection.
    Ports(Vec<String>),
    /// Ask the provider to open this port.
    Request(OpenRequest),
    /// Start a reader that owns this handle.
    Reader(H),
    /// Hand these bytes to the provider's write.
    Payload(Vec<u8>),
    /// Emit these bytes to the sink.
    Sink(Vec<u8>),
}

pub open spec fn text_of(s: Option<String>) -> Option<Seq<char>> {
    match s {
        Some(t) => Some(t@),
        None => None,
    }
}

/// The session after one command.
pub open spec fn step<H>(m: SessionModel<H>, c: Command<H>) -> SessionModel<H> {
    match c {
        Command::Enumerate(listing) => m.enumerate(listing.is_some()),
        Command::Select { .. } => m.close(),
        Command::Open(outcome) => m.open(outcome),
        Command::Close => m.close(),
        Command::StartRead(cloned) => m.start_read(cloned.is_some()),
        Command::StopRead => m.stop_read(),
        Command::Write(_) => m,
        Command::ClearScreen => m,
    }
}

/// The session after a sequence of commands, first to last.
pub open spec fn run<H>(m: SessionModel<H>, commands: Seq<Command<H>>) -> SessionModel<H>
    decreases commands.len(),
{
    if commands.len() == 0 {
        m
    } else {
        step(run(m, commands.drop_last()), commands.last())
    }
}

/// Whether `r` is the answer to command `c` in a session that was `m`.
pub open spec fn answers<H>(
    m: SessionModel<H>,
    c: Command<H>,
    r: Result<Reply<H>, SessionError>,
) -> bool {
    match c {
        Command::Enumerate(listing) => match listing {
            Some(names) => r == Ok::<Reply<H>, SessionError>(Reply::Ports(names)),
            None => r == Err::<Reply<H>, SessionError>(SessionError::EnumerationFailed),
        },
        Command::Select { port, baud } => if selection_complete(text_of(port), text_of(baud)) {
            &&& r matches Ok(Reply::Request(req))
            &&& req.port_name == port.unwrap()
            &&& Some(req.baud_rate) == parse_baud_spec(baud.unwrap()@)
            &&& req.timeout_ms == READ_TIMEOUT_MS
        } else {
            r == Err::<Reply<H>, SessionError>(SessionError::SelectionMissing)
        },
        Command::Open(outcome) => if outcome.is_some() {
            r == Ok::<Reply<H>, SessionError>(Reply::Done)
        } else {
            r == Err::<Reply<H>, SessionError>(SessionError::OpenFailed)
        },
        Command::Close => r == Ok::<Reply<H>, SessionError>(Reply::Done),
        Command::StartRead(cloned) => if m.starts_reader(cloned.is_some()) {
            r == Ok::<Reply<H>, SessionError>(Reply::Reader(cloned.unwrap()))
        } else if m.state == SessionState::Connected {
            r == Err::<Reply<H>, SessionError>(SessionError::CloneFailed)
        } else {
            r == Err::<Reply<H>, SessionError>(SessionError::NotConnected)
        },
        Command::StopRead => if m.state != SessionState::Idle {
            r == Ok::<Reply<H>, SessionError>(Reply::Done)
        } else {
            r == Err::<Reply<H>, SessionError>(SessionError::NotConnected)
        },
        Command::Write(content) => if content@.len() == 0 {
            r == Err::<Reply<H>, SessionError>(SessionError::EmptyPayload)
        } else if m.state == SessionState::Idle {
            r == Err::<Reply<H>, SessionError>(SessionError::NotConnected)
        } else {
            &&& r matches Ok(Reply::Payload(bytes))
            &&& bytes@ == bytes_sent(m.state, content@)
        },
        Command::ClearScreen => {
            &&& r matches Ok(Reply::Sink(bytes))
            &&& bytes@ == clear_sequence()
        },
    }
}

/// Carries out one command: the session becomes what `step` says, and the
/// result is the reply or the error that `answers` describes.
pub fn dispatch<H>(session: &mut Session<H>, command: Command<H>) -> (r: Result<
    Reply<H>,
    SessionError,
>)
    ensures
        final(session)@ == step(old(session)@, command),
        final(session)@.wf(),
        answers(old(session)@, command, r),
{
    proof {
        use_type_invariant(&*session);
    }
    match command {
        Command::Enumerate(listing) => match get_ports(session, listing) {
            Ok(names) => Ok(Reply::Ports(names)),
            Err(e) => Err(e),
        },
        Command::Select { port, baud } => {
            let request = match &baud {
                Some(text) => open_request(session, port, Some(text.as_str())),
                None => open_request(session, port, None),
            };
            match request {
                Ok(req) => Ok(Reply::Request(req)),
                Err(e) => Err(e),
            }
        },
        Command::Open(outcome) => match open(session, outcome) {
            Ok(()) => Ok(Reply::Done),
            Err(e) => Err(e),
        },
        Command::Close => {
            close(session);
            Ok(Reply::Done)
        },
        Command::StartRead(cloned) => match read(session, cloned) {
            Ok(h) => Ok(Reply::Reader(h)),
            Err(e) => Err(e),
        },
        Command::StopRead => match stop_read(session) {
            Ok(()) => Ok(Reply::Done),
            Err(e) => Err(e),
        },
        Command::Write(content) => match crate::serial_port::write(session, content.as_str()) {
            Ok(bytes) => Ok(Reply::Payload(bytes)),
            Err(e) => Err(e),
        },
        Command::ClearScreen => Ok(Reply::Sink(clear())),
    }
}

} // verus!
