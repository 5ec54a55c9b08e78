//! The per-connection session: a state machine over the fixed exchange that
//! the realtime endpoint runs on every accepted connection.
//!
//! Each state prescribes one action (send the greeting ping, wait for one
//! inbound message, send a countdown message, pause, or close); the outcome of
//! that action is the event that drives the next transition. Any failure is
//! terminal for the session: the machine moves to `Aborted` and prescribes
//! nothing further but closing. The unverified server performs the actions and
//! feeds the outcomes back in; every decision is taken here.

use vstd::prelude::*;

verus! {

/// Where a session stands. `Sending(i)` and `Pausing(i)` carry the index
/// (1 through 4) of the countdown message being sent, or just sent.
#[derive(Clone, Copy, Debug, PartialEq, Eq, Structural)]
pub enum SessionState {
    /// About to send the greeting ping frame.
    Greeting,
    /// Ping sent; waiting for exactly one inbound message of any kind.
    AwaitReply,
    /// About to send countdown message `i`.
    Sending(u8),
    /// Countdown message `i` sent; pausing before the next step.
    Pausing(u8),
    /// All four countdown messages sent; the session ended normally.
    Done,
    /// Some step failed; the session ended early.
    Aborted,
}

/// The outcome of the action a state prescribed.
#[derive(Clone, Copy, Debug, PartialEq, Eq, Structural)]
pub enum SessionEvent {
    /// A send completed.
    SendOk,
    /// A send failed; the connection is unusable.
    SendFailed,
    /// One inbound message arrived intact.
    MessageReceived,
    /// An inbound frame signalled a transport or protocol error.
    ReceiveFailed,
    /// The peer closed the connection before sending anything.
    PeerClosed,
    /// The fixed pause between countdown sends elapsed.
    DelayElapsed,
}

/// What the server must do next on behalf of a session.
#[derive(Clone, Copy, Debug, PartialEq, Eq, Structural)]
pub enum SessionAction {
    /// Send the greeting ping frame with its fixed payload.
    SendPing,
    /// Wait for one inbound message, without a timeout.
    AwaitMessage,
    /// Send countdown message `i` (its text is `countdown_text(i)`).
    SendCountdown(u8),
    /// Pause for the fixed delay.
    Delay,
    /// Close the connection; the session is over.
    Close,
}

/// A well-formed state carries a countdown index between 1 and 4.
pub open spec fn state_wf(s: SessionState) -> bool {
    match s {
        SessionState::Sending(i) => 1 <= i <= 4,
        SessionState::Pausing(i) => 1 <= i <= 4,
        _ => true,
    }
}

/// A session in a terminal state prescribes nothing but closing.
pub open spec fn is_terminal_spec(s: SessionState) -> bool {
    s is Done || s is Aborted
}

/// The action each state prescribes.
pub open spec fn action_spec(s: SessionState) -> SessionAction {
    match s {
        SessionState::Greeting => SessionAction::SendPing,
        SessionState::AwaitReply => SessionAction::AwaitMessage,
        SessionState::Sending(i) => SessionAction::SendCountdown(i),
        SessionState::Pausing(_) => SessionAction::Delay,
        SessionState::Done => SessionAction::Close,
        SessionState::Aborted => SessionAction::Close,
    }
}

/// Whether `e` is a possible outcome of the action that `s` prescribes.
/// A terminal state has no outcomes.
pub open spec fn event_fits(s: SessionState, e: SessionEvent) -> bool {
    match s {
        SessionState::Greeting => e is SendOk || e is SendFailed,
        SessionState::AwaitReply => e is MessageReceived || e is ReceiveFailed || e is PeerClosed,
        SessionState::Sending(_) => e is SendOk || e is SendFailed,
        SessionState::Pausing(_) => e is DelayElapsed,
        SessionState::Done => false,
        SessionState::Aborted => false,
    }
}

/// The transition relation. Terminal states absorb every event; any event
/// that is not the successful outcome of the prescribed action aborts the
/// session, so a failure at any step is terminal and sends nothing further.
pub open spec fn next_spec(s: SessionState, e: SessionEvent) -> SessionState {
    match s {
        SessionState::Greeting => if e is SendOk {
            SessionState::AwaitReply
        } else {
            SessionState::Aborted
        },
        SessionState::AwaitReply => if e is MessageReceived {
            SessionState::Sending(1)
        } else {
            SessionState::Aborted
        },
        SessionState::Sending(i) => if e is SendOk {
            SessionState::Pausing(i)
        } else {
            SessionState::Aborted
        },
        SessionState::Pausing(i) => if e is DelayElapsed {
            if i < 4 {
                SessionState::Sending((i + 1) as u8)
            } else {
                SessionState::Done
            }
        } else {
            SessionState::Aborted
        },
        SessionState::Done => SessionState::Done,
        SessionState::Aborted => SessionState::Aborted,
    }
}

/// The state every session starts in.
pub fn init_state() -> (s: SessionState)
    ensures
        s == SessionState::Greeting,
        state_wf(s),
{
    SessionState::Greeting
}

/// Whether the session is over (normally or early).
pub fn is_terminal(s: &SessionState) -> (r: bool)
    ensures
        r == is_terminal_spec(*s),
{
    match s {
        SessionState::Done => true,
        SessionState::Aborted => true,
        _ => false,
    }
}

/// The action the server must perform next for a session in state `s`.
pub fn action_of(s: &SessionState) -> (a: SessionAction)
    ensures
        a == action_spec(*s),
{
    match s {
        SessionState::Greeting => SessionAction::SendPing,
        SessionState::AwaitReply => SessionAction::AwaitMessage,
        SessionState::Sending(i) => SessionAction::SendCountdown(*i),
        SessionState::Pausing(_) => SessionAction::Delay,
        SessionState::Done => SessionAction::Close,
        SessionState::Aborted => SessionAction::Close,
    }
}

/// Advance the session by the outcome of its prescribed action.
pub fn next(s: SessionState, e: SessionEvent) -> (r: SessionState)
    ensures
        r == next_spec(s, e),
        state_wf(s) ==> state_wf(r),
{
    match s {
        SessionState::Greeting => match e {
            SessionEvent::SendOk => SessionState::AwaitReply,
            _ => SessionState::Aborted,
        },
        SessionState::AwaitReply => match e {
            SessionEvent::MessageReceived => SessionState::Sending(1),
            _ => SessionState::Aborted,
        },
        SessionState::Sending(i) => match e {
            SessionEvent::SendOk => SessionState::Pausing(i),
            _ => SessionState::Aborted,
        },
        SessionState::Pausing(i) => match e {
            SessionEvent::DelayElapsed => if i < 4 {
                SessionState::Sending(i + 1)
            } else {
                SessionState::Done
            },
            _ => SessionState::Aborted,
        },
        SessionState::Done => SessionState::Done,
        SessionState::Aborted => SessionState::Aborted,
    }
}

} // verus!
