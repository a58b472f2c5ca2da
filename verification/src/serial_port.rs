//! The session controller: one connection, its state and its commands.

use vstd::prelude::*;
use vstd::string::*;
use crate::baud::{parse_baud, parse_baud_spec};

verus! {

/// Read timeout, in milliseconds, with which every port is opened.
pub const READ_TIMEOUT_MS: u64 = 10;

/// Where a session stands.
#[derive(Clone, Copy, Debug, PartialEq, Eq, Structural)]
pub enum SessionState {
    /// No port is open.
    Idle,
    /// A port is open and no reader runs.
    Connected,
    /// A port is open and a reader drains it.
    Reading,
}

/// Why a command was not carried out.
#[derive(Clone, Copy, Debug, PartialEq, Eq, Structural)]
pub enum SessionError {
    /// The operating system could not list its ports.
    EnumerationFailed,
    /// No port, or no usable baud rate, was chosen.
    SelectionMissing,
    /// The device could not be opened.
    OpenFailed,
    /// No second handle for the reader could be made.
    CloneFailed,
    /// The command is not valid in the session's current state.
    NotConnected,
    /// There was nothing to write.
    EmptyPayload,
    /// The device did not take the bytes.
    WriteError,
}

/// What a session is, for contracts: its state, the handle it owns and the
/// run flag that it shares with the reader.
pub struct SessionModel<H> {
    pub state: SessionState,
    pub handle: Option<H>,
    pub run_flag: bool,
}

impl<H> SessionModel<H> {
    /// A handle is owned exactly outside `Idle`, and the run flag is set
    /// exactly in `Reading`.
    pub open spec fn wf(self) -> bool {
        &&& (self.state == SessionState::Idle <==> self.handle.is_none())
        &&& (self.run_flag <==> self.state == SessionState::Reading)
    }

    /// The session with no port open.
    pub open spec fn idle() -> Self {
        SessionModel { state: SessionState::Idle, handle: None, run_flag: false }
    }

    /// The session after its ports were asked for: a listing resets the
    /// connection, a failed query leaves the session as it was.
    pub open spec fn enumerate(self, listed: bool) -> Self {
        if listed {
            Self::idle()
        } else {
            self
        }
    }

    /// The session after a close, from any state.
    pub open spec fn close(self) -> Self {
        Self::idle()
    }

    /// The session after an attempt to open a port: it owns the new handle
    /// and nothing else, or nothing at all.
    pub open spec fn open(self, outcome: Option<H>) -> Self {
        match outcome {
            Some(h) => SessionModel {
                state: SessionState::Connected,
                handle: Some(h),
                run_flag: false,
            },
            None => Self::idle(),
        }
    }

    /// Whether a reader starts when one is asked for and `cloned` says
    /// whether the provider made a second handle.
    pub open spec fn starts_reader(self, cloned: bool) -> bool {
        self.state == SessionState::Connected && cloned
    }

    /// The session after a reader was asked for.
    pub open spec fn start_read(self, cloned: bool) -> Self {
        if self.starts_reader(cloned) {
            SessionModel { state: SessionState::Reading, handle: self.handle, run_flag: true }
        } else {
            self
        }
    }

    /// The session after the reader was told to stop.
    pub open spec fn stop_read(self) -> Self {
        if self.state == SessionState::Reading {
            SessionModel { state: SessionState::Connected, handle: self.handle, run_flag: false }
        } else {
            self
        }
    }
}

/// The controller's record of the current connection. `H` is the
/// provider's handle to an open device.
pub struct Session<H> {
    state: SessionState,
    handle: Option<H>,
    run_flag: bool,
}

impl<H> View for Session<H> {
    type V = SessionModel<H>;

    closed spec fn view(&self) -> SessionModel<H> {
        SessionModel { state: self.state, handle: self.handle, run_flag: self.run_flag }
    }
}

impl<H> Session<H> {
    #[verifier::type_invariant]
    pub(crate) open spec fn inv(self) -> bool {
        self@.wf()
    }

    /// A session in `Idle`.
    pub fn new() -> (s: Self)
        ensures
            s@ == SessionModel::<H>::idle(),
            s@.wf(),
    {
        Session { state: SessionState::Idle, handle: None, run_flag: false }
    }

    /// The state of the session. Every session is well formed.
    pub fn state(&self) -> (st: SessionState)
        ensures
            st == self@.state,
            self@.wf(),
    {
        proof {
            use_type_invariant(self);
        }
        self.state
    }

    /// Whether the reader is meant to run.
    pub fn run_flag(&self) -> (flag: bool)
        ensures
            flag == self@.run_flag,
    {
        self.run_flag
    }

    pub fn has_handle(&self) -> (present: bool)
        ensures
            present == self@.handle.is_some(),
    {
        self.handle.is_some()
    }

    /// The handle that the session owns, for the provider to clone or to
    /// write through.
    pub fn handle(&self) -> (h: Option<&H>)
        ensures
            match h {
                Some(r) => self@.handle == Some(*r),
                None => self@.handle.is_none(),
            },
    {
        self.handle.as_ref()
    }
}

/// A port to open, as the provider needs it.
pub struct OpenRequest {
    pub port_name: String,
    pub baud_rate: u32,
    pub timeout_ms: u64,
}

/// Whether a selection names a port and a baud rate that can be opened.
pub open spec fn selection_complete(port: Option<Seq<char>>, baud: Option<Seq<char>>) -> bool {
    port.is_some() && baud.is_some() && parse_baud_spec(baud.unwrap()).is_some()
}

/// Lists the ports: takes what the provider's enumeration gave, `None`
/// where the query failed. A listing is handed on and resets the
/// connection, whatever state it was in: the reader is told to stop, the
/// handle released. A failed query is reported and changes nothing.
pub fn get_ports<H>(session: &mut Session<H>, listing: Option<Vec<String>>) -> (r: Result<
    Vec<String>,
    SessionError,
>)
    ensures
        final(session)@ == old(session)@.enumerate(listing.is_some()),
        final(session)@.wf(),
        match listing {
            Some(names) => r == Ok::<Vec<String>, SessionError>(names),
            None => r == Err::<Vec<String>, SessionError>(SessionError::EnumerationFailed),
        },
{
    proof {
        use_type_invariant(&*session);
    }
    match listing {
        Some(names) => {
            close(session);
            Ok(names)
        },
        None => Err(SessionError::EnumerationFailed),
    }
}

/// Checks the user's selection before a port is opened. Whatever the
/// session held is released, so the session is `Idle` afterwards; the
/// request comes back exactly when a port and a baud rate of decimal
/// digits, positive and within 32 bits, were chosen.
pub fn open_request<H>(session: &mut Session<H>, port: Option<String>, baud: Option<&str>) -> (r:
    Result<OpenRequest, SessionError>)
    ensures
        final(session)@ == old(session)@.close(),
        final(session)@.wf(),
        r.is_ok() <==> selection_complete(
            match port { Some(p) => Some(p@), None => None },
            match baud { Some(b) => Some(b@), None => None },
        ),
        r is Err ==> r->Err_0 == SessionError::SelectionMissing,
        r.is_ok() ==> {
            &&& r.unwrap().port_name == port.unwrap()
            &&& Some(r.unwrap().baud_rate) == parse_baud_spec(baud.unwrap()@)
            &&& r.unwrap().timeout_ms == READ_TIMEOUT_MS
        },
{
    close(session);
    match (port, baud) {
        (Some(port_name), Some(text)) => match parse_baud(text) {
            Some(baud_rate) => Ok(OpenRequest { port_name, baud_rate, timeout_ms: READ_TIMEOUT_MS }),
            None => Err(SessionError::SelectionMissing),
        },
        _ => Err(SessionError::SelectionMissing),
    }
}

/// Takes what the provider's open gave (`None` where it failed). The
/// session owns the new handle and is `Connected`, or owns nothing and is
/// `Idle`; a handle held before is released either way.
pub fn open<H>(session: &mut Session<H>, outcome: Option<H>) -> (r: Result<(), SessionError>)
    ensures
        final(session)@ == old(session)@.open(outcome),
        final(session)@.wf(),
        r.is_ok() <==> outcome.is_some(),
        r.is_err() ==> r == Err::<(), SessionError>(SessionError::OpenFailed),
{
    match outcome {
        Some(h) => {
            *session = Session { state: SessionState::Connected, handle: Some(h), run_flag: false };
            Ok(())
        },
        None => {
            close(session);
            Err(SessionError::OpenFailed)
        },
    }
}

/// Closes the session from any state: the run flag is cleared, the handle
/// released, the state `Idle`.
pub fn close<H>(session: &mut Session<H>)
    ensures
        final(session)@ == old(session)@.close(),
        final(session)@.wf(),
{
    *session = Session { state: SessionState::Idle, handle: None, run_flag: false };
}

/// Starts the reader. `cloned` is the second handle that the provider made
/// of the session's own (`None` where it could not). In `Connected` with a
/// second handle the session becomes `Reading`, the run flag is set, and
/// the second handle comes back for the reader to own. In every other case
/// the session is unchanged: without a second handle the error is
/// `CloneFailed`, outside `Connected` it is `NotConnected`.
pub fn read<H>(session: &mut Session<H>, cloned: Option<H>) -> (r: Result<H, SessionError>)
    ensures
        final(session)@ == old(session)@.start_read(cloned.is_some()),
        final(session)@.wf(),
        r.is_ok() <==> old(session)@.starts_reader(cloned.is_some()),
        r.is_ok() ==> Some(r.unwrap()) == cloned,
        r is Err ==> r->Err_0 == (if old(session)@.state == SessionState::Connected {
            SessionError::CloneFailed
        } else {
            SessionError::NotConnected
        }),
{
    proof {
        use_type_invariant(&*session);
    }
    match session.state {
        SessionState::Connected => match cloned {
            Some(h) => {
                let mut held: Session<H> = Session::new();
                std::mem::swap(session, &mut held);
                *session = Session {
                    state: SessionState::Reading,
                    handle: held.handle,
                    run_flag: true,
                };
                Ok(h)
            },
            None => Err(SessionError::CloneFailed),
        },
        _ => Err(SessionError::NotConnected),
    }
}

/// Stops the reader: in `Reading` the run flag is cleared and the session
/// is `Connected`. In `Connected` nothing changes and the call succeeds; in
/// `Idle` nothing changes and the error is `NotConnected`.
pub fn stop_read<H>(session: &mut Session<H>) -> (r: Result<(), SessionError>)
    ensures
        final(session)@ == old(session)@.stop_read(),
        final(session)@.wf(),
        r.is_ok() <==> old(session)@.state != SessionState::Idle,
        r.is_err() ==> r == Err::<(), SessionError>(SessionError::NotConnected),
{
    proof {
        use_type_invariant(&*session);
    }
    match session.state {
        SessionState::Reading => {
            let mut held: Session<H> = Session::new();
            std::mem::swap(session, &mut held);
            *session = Session {
                state: SessionState::Connected,
                handle: held.handle,
                run_flag: false,
            };
            Ok(())
        },
        SessionState::Connected => Ok(()),
        SessionState::Idle => Err(SessionError::NotConnected),
    }
}

/// Whether a write of `content` is accepted in a session in state
/// `state`: there is something to write and a port to write it to.
pub open spec fn accepts_write(state: SessionState, content: Seq<char>) -> bool {
    content.len() > 0 && state != SessionState::Idle
}

/// The bytes that leave the host for a write of `content` in a session in
/// state `state`: those of `content`, or none where the write is rejected.
pub open spec fn bytes_sent(state: SessionState, content: Seq<char>) -> Seq<u8> {
    if accepts_write(state, content) {
        vstd::utf8::encode_utf8(content)
    } else {
        Seq::empty()
    }
}

/// The bytes that a decided write hands to the provider: none where it was
/// rejected.
pub open spec fn payload_of(r: Result<Vec<u8>, SessionError>) -> Seq<u8> {
    match r {
        Ok(bytes) => bytes@,
        Err(_) => Seq::empty(),
    }
}

/// Decides a write. An empty `content` is rejected with `EmptyPayload`,
/// whatever the state; a write in `Idle` with `NotConnected`. Otherwise the
/// result is the payload for the provider, the bytes of `content` in order.
/// The session does not change.
pub fn write<H>(session: &Session<H>, content: &str) -> (r: Result<Vec<u8>, SessionError>)
    ensures
        r.is_ok() <==> accepts_write(session@.state, content@),
        payload_of(r) == bytes_sent(session@.state, content@),
        r is Err ==> r->Err_0 == (if content@.len() == 0 {
            SessionError::EmptyPayload
        } else {
            SessionError::NotConnected
        }),
{
    if content.is_empty() {
        return Err(SessionError::EmptyPayload);
    }
    match session.state {
        SessionState::Idle => Err(SessionError::NotConnected),
        _ => Ok(content.as_bytes_vec()),
    }
}

/// Takes what the provider's write gave: the count of bytes written, or
/// `None` where it failed, which becomes `WriteError`.
pub fn written(outcome: Option<usize>) -> (r: Result<usize, SessionError>)
    ensures
        match outcome {
            Some(n) => r == Ok::<usize, SessionError>(n),
            None => r == Err::<usize, SessionError>(SessionError::WriteError),
        },
{
    match outcome {
        Some(n) => Ok(n),
        None => Err(SessionError::WriteError),
    }
}

/// The bytes that clear a terminal and home its cursor: erase the display,
/// home, a line feed, home again.
pub open spec fn clear_sequence() -> Seq<u8> {
    seq![0x1bu8, 0x5b, 0x32, 0x4a, 0x1b, 0x5b, 0x48, 0x0a, 0x1b, 0x5b, 0x48]
}

/// The bytes to emit to the sink to clear the screen.
pub fn clear() -> (bytes: Vec<u8>)
    ensures
        bytes@ == clear_sequence(),
{
    let bytes: Vec<u8> = vec![0x1bu8, 0x5b, 0x32, 0x4a, 0x1b, 0x5b, 0x48, 0x0a, 0x1b, 0x5b, 0x48];
    assert(bytes@ =~= clear_sequence());
    bytes
}

} // verus!
