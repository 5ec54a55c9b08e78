//! Traces of a session: the sequence of actions a session performs for a
//! given sequence of outcomes, and the laws that hold of every such trace.
//!
//! `run` folds the transition relation of [`crate::session`] over a sequence
//! of events, collecting the action each visited state prescribed;
//! `state_after` is the state the session ends in. `script` is the action
//! sequence of an all-successful session, and every run — however the peer
//! behaves — performs a prefix of it.

use vstd::prelude::*;
use vstd::seq_lib::*;

use crate::session::SessionAction;
use crate::session::SessionEvent;
use crate::session::SessionState;
use crate::session::action_spec;
use crate::session::is_terminal_spec;
use crate::session::next_spec;

verus! {

/// The actions a session starting in `s` performs while consuming `events`,
/// one event per action, stopping at a terminal state or when the events run
/// out.
pub open spec fn run(s: SessionState, events: Seq<SessionEvent>) -> Seq<SessionAction>
    decreases events.len(),
{
    if events.len() == 0 || is_terminal_spec(s) {
        Seq::empty()
    } else {
        seq![action_spec(s)] + run(next_spec(s, events[0]), events.drop_first())
    }
}

/// The state a session starting in `s` is in after consuming `events`.
pub open spec fn state_after(s: SessionState, events: Seq<SessionEvent>) -> SessionState
    decreases events.len(),
{
    if events.len() == 0 || is_terminal_spec(s) {
        s
    } else {
        state_after(next_spec(s, events[0]), events.drop_first())
    }
}

/// Countdown rounds still ahead of index `i`.
pub open spec fn rounds_left(i: u8) -> nat {
    if i <= 4 {
        (4 - i) as nat
    } else {
        0
    }
}

/// A measure that strictly shrinks along every successful transition.
pub open spec fn rank(s: SessionState) -> nat {
    match s {
        SessionState::Greeting => 10,
        SessionState::AwaitReply => 9,
        SessionState::Sending(i) => 2 * rounds_left(i) + 2,
        SessionState::Pausing(i) => 2 * rounds_left(i) + 1,
        SessionState::Done => 0,
        SessionState::Aborted => 0,
    }
}

/// The state a session moves to when the prescribed action succeeds.
pub open spec fn success_next(s: SessionState) -> SessionState {
    match s {
        SessionState::Greeting => SessionState::AwaitReply,
        SessionState::AwaitReply => SessionState::Sending(1),
        SessionState::Sending(i) => SessionState::Pausing(i),
        SessionState::Pausing(i) => if i < 4 {
            SessionState::Sending((i + 1) as u8)
        } else {
            SessionState::Done
        },
        SessionState::Done => SessionState::Done,
        SessionState::Aborted => SessionState::Aborted,
    }
}

/// The actions of an all-successful session from `s` on: the whole exchange,
/// with nothing cut short.
pub open spec fn script(s: SessionState) -> Seq<SessionAction>
    decreases rank(s),
{
    if is_terminal_spec(s) {
        Seq::empty()
    } else {
        seq![action_spec(s)] + script(success_next(s))
    }
}

/// Every transition either follows the successful path or aborts.
pub proof fn lemma_next_success_or_abort(s: SessionState, e: SessionEvent)
    requires
        !is_terminal_spec(s),
    ensures
        next_spec(s, e) == success_next(s) || next_spec(s, e) == SessionState::Aborted,
{
}

/// A session in a terminal state performs nothing and stays where it is.
pub proof fn lemma_run_terminal(s: SessionState, events: Seq<SessionEvent>)
    requires
        is_terminal_spec(s),
    ensures
        run(s, events) == Seq::<SessionAction>::empty(),
        state_after(s, events) == s,
{
}

/// Whatever the peer does, a session performs a prefix of the full successful
/// exchange: actions come in the scripted order, and nothing is performed
/// after an abort.
pub proof fn lemma_run_prefix_of_script(s: SessionState, events: Seq<SessionEvent>)
    ensures
        run(s, events).is_prefix_of(script(s)),
    decreases events.len(),
{
    if events.len() == 0 || is_terminal_spec(s) {
        assert(run(s, events) =~= script(s).subrange(0, 0));
    } else {
        let a = action_spec(s);
        let s2 = next_spec(s, events[0]);
        let rest = events.drop_first();
        lemma_next_success_or_abort(s, events[0]);
        if s2 is Aborted {
            lemma_run_terminal(s2, rest);
            assert(run(s, events) =~= seq![a]);
            assert(run(s, events) =~= script(s).subrange(0, 1));
        } else {
            lemma_run_prefix_of_script(s2, rest);
            let n = run(s2, rest).len() as int;
            assert(run(s2, rest) =~= script(s2).subrange(0, n));
            assert(run(s, events) =~= script(s).subrange(0, n + 1));
        }
    }
}

/// The events of an all-successful session: every send completes, the peer
/// replies once, every pause elapses.
pub open spec fn success_events() -> Seq<SessionEvent> {
    seq![
        SessionEvent::SendOk,
        SessionEvent::MessageReceived,
        SessionEvent::SendOk,
        SessionEvent::DelayElapsed,
        SessionEvent::SendOk,
        SessionEvent::DelayElapsed,
        SessionEvent::SendOk,
        SessionEvent::DelayElapsed,
        SessionEvent::SendOk,
        SessionEvent::DelayElapsed,
    ]
}

/// The full exchange: greeting ping, one awaited reply, then the four
/// countdown sends in increasing order, a pause after each.
pub open spec fn full_script() -> Seq<SessionAction> {
    seq![
        SessionAction::SendPing,
        SessionAction::AwaitMessage,
        SessionAction::SendCountdown(1),
        SessionAction::Delay,
        SessionAction::SendCountdown(2),
        SessionAction::Delay,
        SessionAction::SendCountdown(3),
        SessionAction::Delay,
        SessionAction::SendCountdown(4),
        SessionAction::Delay,
    ]
}

/// The successful exchange from the initial state is exactly `full_script`.
pub proof fn lemma_script_value()
    ensures
        script(SessionState::Greeting) == full_script(),
{
    reveal_with_fuel(script, 12);
    assert(script(SessionState::Greeting) =~= full_script());
}

/// A peer that lets every step succeed receives exactly the four countdown
/// messages, in order 1 through 4, a pause separating each send from the
/// next, and the session ends normally.
pub proof fn lemma_full_session()
    ensures
        run(SessionState::Greeting, success_events()) == full_script(),
        state_after(SessionState::Greeting, success_events()) == SessionState::Done,
{
    reveal_with_fuel(run, 12);
    reveal_with_fuel(state_after, 12);
    assert(run(SessionState::Greeting, success_events()) =~= full_script());
}

/// Runs compose: consuming `e1` then `e2` performs the actions of `e1`
/// followed by those of `e2` from where `e1` left off.
pub proof fn lemma_run_append(s: SessionState, e1: Seq<SessionEvent>, e2: Seq<SessionEvent>)
    ensures
        run(s, e1 + e2) == run(s, e1) + run(state_after(s, e1), e2),
        state_after(s, e1 + e2) == state_after(state_after(s, e1), e2),
    decreases e1.len(),
{
    if is_terminal_spec(s) {
        lemma_run_terminal(s, e1 + e2);
        lemma_run_terminal(s, e1);
        assert(run(s, e1 + e2) =~= run(s, e1) + run(s, e2));
    } else if e1.len() == 0 {
        assert(e1 + e2 =~= e2);
        assert(run(s, e1) =~= Seq::<SessionAction>::empty());
        assert(run(s, e2) =~= run(s, e1) + run(s, e2));
    } else {
        let s2 = next_spec(s, e1[0]);
        lemma_run_append(s2, e1.drop_first(), e2);
        assert((e1 + e2).drop_first() =~= e1.drop_first() + e2);
        if e2.len() == 0 {
            assert(e1 + e2 =~= e1);
            assert(run(state_after(s, e1), e2) =~= Seq::<SessionAction>::empty());
            assert(run(s, e1 + e2) =~= run(s, e1) + run(state_after(s, e1), e2));
        } else {
            assert(run(s, e1 + e2) =~= seq![action_spec(s)] + run(s2, e1.drop_first() + e2));
            assert(seq![action_spec(s)] + (run(s2, e1.drop_first()) + run(
                state_after(s2, e1.drop_first()),
                e2,
            )) =~= (seq![action_spec(s)] + run(s2, e1.drop_first())) + run(
                state_after(s2, e1.drop_first()),
                e2,
            ));
        }
    }
}

/// A peer that closes, or errors, instead of replying to the greeting ping
/// ends the session with nothing but the ping and the wait performed: zero
/// countdown messages are sent, whatever would have come after.
pub proof fn lemma_no_reply_no_countdown(e: SessionEvent, later: Seq<SessionEvent>)
    requires
        e is PeerClosed || e is ReceiveFailed,
    ensures
        run(SessionState::Greeting, seq![SessionEvent::SendOk, e] + later) == seq![
            SessionAction::SendPing,
            SessionAction::AwaitMessage,
        ],
        state_after(SessionState::Greeting, seq![SessionEvent::SendOk, e] + later)
            == SessionState::Aborted,
{
    let evs = seq![SessionEvent::SendOk, e] + later;
    let evs1 = seq![e] + later;
    assert(evs[0] == SessionEvent::SendOk);
    assert(evs.drop_first() == evs1) by {
        assert(evs.drop_first() =~= evs1);
    }
    assert(evs1[0] == e);
    assert(evs1.drop_first() == later) by {
        assert(evs1.drop_first() =~= later);
    }
    lemma_run_terminal(SessionState::Aborted, later);
    assert(run(SessionState::AwaitReply, evs1) =~= seq![SessionAction::AwaitMessage]);
    assert(run(SessionState::Greeting, evs) =~= seq![SessionAction::SendPing] + run(
        SessionState::AwaitReply,
        evs1,
    ));
    assert(run(SessionState::Greeting, evs) =~= seq![
        SessionAction::SendPing,
        SessionAction::AwaitMessage,
    ]);
    assert(state_after(SessionState::Greeting, evs) == state_after(SessionState::AwaitReply, evs1));
    assert(state_after(SessionState::AwaitReply, evs1) == state_after(SessionState::Aborted, later));
}

/// A send failure while the session stands at countdown message `i` aborts it
/// on the spot: the failed attempt is the last action ever performed, however
/// many events come later.
pub proof fn lemma_send_failure_stops(
    pre: Seq<SessionEvent>,
    i: u8,
    later: Seq<SessionEvent>,
)
    requires
        state_after(SessionState::Greeting, pre) == SessionState::Sending(i),
    ensures
        run(SessionState::Greeting, pre + seq![SessionEvent::SendFailed] + later) == run(
            SessionState::Greeting,
            pre,
        ).push(SessionAction::SendCountdown(i)),
        state_after(SessionState::Greeting, pre + seq![SessionEvent::SendFailed] + later)
            == SessionState::Aborted,
{
    let tail = seq![SessionEvent::SendFailed] + later;
    lemma_run_append(SessionState::Greeting, pre, tail);
    assert(pre + seq![SessionEvent::SendFailed] + later =~= pre + tail);
    assert(tail[0] == SessionEvent::SendFailed);
    assert(tail.drop_first() =~= later);
    lemma_run_terminal(SessionState::Aborted, later);
    assert(run(SessionState::Sending(i), tail) =~= seq![SessionAction::SendCountdown(i)]);
    assert(run(SessionState::Greeting, pre) + seq![SessionAction::SendCountdown(i)] =~= run(
        SessionState::Greeting,
        pre,
    ).push(SessionAction::SendCountdown(i)));
}

/// Whatever events a connection produces, the session performs a prefix of
/// the full exchange: countdown messages only ever appear in increasing order
/// starting at 1, each preceded by the ping and the awaited reply and
/// separated by pauses, and an aborted session performs nothing further.
pub proof fn lemma_actions_follow_full_script(events: Seq<SessionEvent>)
    ensures
        run(SessionState::Greeting, events).is_prefix_of(full_script()),
{
    lemma_run_prefix_of_script(SessionState::Greeting, events);
    lemma_script_value();
}

} // verus!
