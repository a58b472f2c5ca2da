//! The front-end's side of the controller: a session together with the
//! enabled state of the buttons, which always reflects the session's state.

use vstd::prelude::*;
use crate::controller::{answers, dispatch, step, Command, Reply};
use crate::controls::{controls, controls_for, Controls};
use crate::serial_port::{Session, SessionError, SessionModel, SessionState};

verus! {

/// What a front-end is, for contracts: its session and its buttons.
pub struct SerialToolModel<H> {
    pub session: SessionModel<H>,
    pub buttons: Controls,
}

/// A session and the buttons that command it.
pub struct SerialTool<H> {
    session: Session<H>,
    buttons: Controls,
}

impl<H> View for SerialTool<H> {
    type V = SerialToolModel<H>;

    closed spec fn view(&self) -> SerialToolModel<H> {
        SerialToolModel { session: self.session@, buttons: self.buttons }
    }
}

impl<H> SerialTool<H> {
    #[verifier::type_invariant]
    spec fn inv(self) -> bool {
        self.buttons == controls_for(self.session@.state)
    }

    /// A front-end over a session in `Idle`.
    pub fn new() -> (tool: Self)
        ensures
            tool@.session == SessionModel::<H>::idle(),
            tool@.buttons == controls_for(SessionState::Idle),
    {
        let session: Session<H> = Session::new();
        let buttons = controls(session.state());
        SerialTool { session, buttons }
    }

    /// Carries out one command and sets the buttons for the state that the
    /// session is in afterwards.
    pub fn command(&mut self, command: Command<H>) -> (r: Result<Reply<H>, SessionError>)
        ensures
            final(self)@.session == step(old(self)@.session, command),
            final(self)@.session.wf(),
            final(self)@.buttons == controls_for(final(self)@.session.state),
            answers(old(self)@.session, command, r),
    {
        let mut held: SerialTool<H> = SerialTool::new();
        std::mem::swap(self, &mut held);
        let SerialTool { session, buttons: _ } = held;
        let mut session = session;
        let reply = dispatch(&mut session, command);
        let buttons = controls(session.state());
        *self = SerialTool { session, buttons };
        reply
    }

    /// The enabled state of the buttons: that of the session's state.
    pub fn buttons(&self) -> (c: Controls)
        ensures
            c == self@.buttons,
            c == controls_for(self@.session.state),
    {
        proof {
            use_type_invariant(self);
        }
        self.buttons
    }

    /// The session behind the buttons.
    pub fn session(&self) -> (s: &Session<H>)
        ensures
            s@ == self@.session,
    {
        &self.session
    }
}

} // verus!
