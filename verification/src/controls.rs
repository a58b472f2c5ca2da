//! The controls that a front-end offers in each state of the session.

use vstd::prelude::*;
use crate::serial_port::SessionState;

verus! {

/// Which controls are enabled. Listing the ports and clearing the screen
/// are possible in every state and have no entry.
#[derive(Clone, Copy, Debug, PartialEq, Eq, Structural)]
pub struct Controls {
    pub open: bool,
    pub close: bool,
    pub start_read: bool,
    pub stop_read: bool,
    pub write: bool,
}

/// A port can be opened only in `Idle`; outside `Idle` it can be closed
/// and written to; reading starts in `Connected` and stops in `Reading`.
pub open spec fn controls_for(state: SessionState) -> Controls {
    Controls {
        open: state == SessionState::Idle,
        close: state != SessionState::Idle,
        start_read: state == SessionState::Connected,
        stop_read: state == SessionState::Reading,
        write: state != SessionState::Idle,
    }
}

/// The controls to enable for a session in state `state`.
pub fn controls(state: SessionState) -> (c: Controls)
    ensures
        c == controls_for(state),
{
    match state {
        SessionState::Idle => Controls {
            open: true,
            close: false,
            start_read: false,
            stop_read: false,
            write: false,
        },
        SessionState::Connected => Controls {
            open: false,
            close: true,
            start_read: true,
            stop_read: false,
            write: true,
        },
        SessionState::Reading => Controls {
            open: false,
            close: true,
            start_read: false,
            stop_read: true,
            write: true,
        },
    }
}

} // verus!
