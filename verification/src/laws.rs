//! What holds of the controller and the reader whatever they are asked.

use vstd::prelude::*;
use crate::reader::{
    complete_part,
    is_split_tail,
    kept_back,
    next_step,
    split_tail_len,
    ReaderStep,
};
use crate::controller::{run, step, Command};
use crate::controls::controls_for;
use crate::serial_port::{accepts_write, bytes_sent, SessionModel, SessionState};

verus! {

/// Every command keeps a session well formed: a handle is owned exactly
/// outside `Idle`, and the run flag is set exactly in `Reading`.
pub proof fn lemma_step_keeps_wf<H>(m: SessionModel<H>, c: Command<H>)
    requires
        m.wf(),
    ensures
        step(m, c).wf(),
{
}

/// After any sequence of commands on a well-formed session, and at every
/// point on the way, the session is well formed: its state is one of the
/// three, and it owns a handle exactly outside `Idle`.
pub proof fn lemma_run_keeps_wf<H>(m: SessionModel<H>, commands: Seq<Command<H>>, k: int)
    requires
        m.wf(),
        0 <= k <= commands.len(),
    ensures
        run(m, commands.take(k)).wf(),
        run(m, commands.take(k)).handle.is_some() <==> run(m, commands.take(k)).state
            != SessionState::Idle,
    decreases k,
{
    let prefix = commands.take(k);
    if k > 0 {
        assert(prefix.drop_last() =~= commands.take(k - 1));
        lemma_run_keeps_wf(m, commands, k - 1);
        lemma_step_keeps_wf(run(m, prefix.drop_last()), prefix.last());
    }
}

/// Once the reader was told to stop, or the session was closed, the run
/// flag is clear, and a reader that finds it clear stops without another
/// read.
pub proof fn lemma_reader_stops<H>(m: SessionModel<H>)
    requires
        m.wf(),
    ensures
        next_step(m.stop_read().run_flag) == ReaderStep::Stop,
        next_step(m.close().run_flag) == ReaderStep::Stop,
{
}

/// A write of nothing sends no byte, in any state.
pub proof fn lemma_empty_payload_sends_nothing(state: SessionState)
    ensures
        bytes_sent(state, Seq::<char>::empty()) == Seq::<u8>::empty(),
{
}

/// Closing twice is closing once.
pub proof fn lemma_close_idempotent<H>(m: SessionModel<H>)
    ensures
        m.close().close() == m.close(),
        m.close().state == SessionState::Idle,
        m.close().handle.is_none(),
{
}

/// A listing of the ports leaves the session in `Idle`, whatever it was.
pub proof fn lemma_enumerate_yields_idle<H>(m: SessionModel<H>)
    ensures
        m.enumerate(true).state == SessionState::Idle,
        m.enumerate(true).handle.is_none(),
        !m.enumerate(true).run_flag,
{
}

/// An open followed by a close ends in `Idle` with no handle, whether the
/// open succeeded or not.
pub proof fn lemma_open_then_close<H>(m: SessionModel<H>, outcome: Option<H>)
    ensures
        m.open(outcome).close().state == SessionState::Idle,
        m.open(outcome).close().handle.is_none(),
        outcome.is_some() ==> m.open(outcome).state == SessionState::Connected,
{
}

/// From a session with a port open, starting the reader and then stopping
/// it ends in `Connected` with the same handle and the run flag clear,
/// whether the reader could be started or not.
pub proof fn lemma_start_then_stop<H>(m: SessionModel<H>, cloned: bool)
    requires
        m.wf(),
        m.state != SessionState::Idle,
    ensures
        m.start_read(cloned).stop_read().state == SessionState::Connected,
        m.start_read(cloned).stop_read().handle == m.handle,
        !m.start_read(cloned).stop_read().run_flag,
        m.state == SessionState::Connected ==> m.start_read(cloned).stop_read() == m,
{
}

/// After a close no reader can be started, whatever the provider gives,
/// until a port has been opened again.
pub proof fn lemma_reader_needs_open_after_close<H>(m: SessionModel<H>, cloned: bool, h: H)
    ensures
        !m.close().starts_reader(cloned),
        m.close().start_read(cloned) == m.close(),
        m.close().open(Some(h)).starts_reader(true),
{
}

/// A button is enabled exactly where its command is not refused for the
/// state that the session is in.
pub proof fn lemma_buttons_match_commands<H>(m: SessionModel<H>, content: Seq<char>)
    requires
        m.wf(),
        content.len() > 0,
    ensures
        controls_for(m.state).open <==> m.handle.is_none(),
        controls_for(m.state).close <==> m.handle.is_some(),
        controls_for(m.state).start_read <==> m.starts_reader(true),
        controls_for(m.state).stop_read <==> m.stop_read() != m,
        controls_for(m.state).write <==> accepts_write(m.state, content),
{
}

/// What a reader decodes and what it keeps back are, joined, the bytes it
/// had and the bytes that arrived: none is lost and none is emitted twice.
/// What it keeps back is at most three bytes: nothing, or the beginning of
/// one character.
pub proof fn lemma_reader_splits_at_character(pending: Seq<u8>, fresh: Seq<u8>)
    ensures
        complete_part(pending, fresh) + kept_back(pending, fresh) == pending + fresh,
        kept_back(pending, fresh).len() <= 3,
        kept_back(pending, fresh).len() > 0 ==> is_split_tail(
            pending + fresh,
            kept_back(pending, fresh).len() as int,
        ),
{
    let all = pending + fresh;
    let k = split_tail_len(all);
    assert(0 <= k <= 3 && k <= all.len());
    assert(complete_part(pending, fresh) + kept_back(pending, fresh) =~= all);
}

} // verus!
