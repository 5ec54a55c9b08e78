use countdown_ws::content::agent_label;
use countdown_ws::content::countdown_text;
use countdown_ws::session::SessionAction;
use countdown_ws::session::SessionEvent;
use countdown_ws::session::SessionState;
use countdown_ws::session::action_of;
use countdown_ws::session::init_state;
use countdown_ws::session::is_terminal;
use countdown_ws::session::next;

/// Drive one session: perform the prescribed action (recorded), feed in the
/// next scripted outcome, until the session is terminal or outcomes run out.
fn drive(events: &[SessionEvent]) -> (Vec<SessionAction>, SessionState) {
    let mut state = init_state();
    let mut actions: Vec<SessionAction> = Vec::new();
    for e in events {
        if is_terminal(&state) {
            break;
        }
        actions.push(action_of(&state));
        state = next(state, *e);
    }
    (actions, state)
}

fn all_success_events() -> Vec<SessionEvent> {
    vec![
        SessionEvent::SendOk,
        SessionEvent::MessageReceived,
        SessionEvent::SendOk,
        SessionEvent::DelayElapsed,
        SessionEvent::SendOk,
        SessionEvent::DelayElapsed,
        SessionEvent::SendOk,
        SessionEvent::DelayElapsed,
        SessionEvent::SendOk,
        SessionEvent::DelayElapsed,
    ]
}

fn full_script_actions() -> Vec<SessionAction> {
    vec![
        SessionAction::SendPing,
        SessionAction::AwaitMessage,
        SessionAction::SendCountdown(1),
        SessionAction::Delay,
        SessionAction::SendCountdown(2),
        SessionAction::Delay,
        SessionAction::SendCountdown(3),
        SessionAction::Delay,
        SessionAction::SendCountdown(4),
        SessionAction::Delay,
    ]
}

fn countdown_indices(actions: &[SessionAction]) -> Vec<u8> {
    let mut out: Vec<u8> = Vec::new();
    for a in actions {
        if let SessionAction::SendCountdown(i) = a {
            out.push(*i);
        }
    }
    out
}

#[test]
fn cooperative_peer_gets_full_countdown() {
    let (actions, end) = drive(&all_success_events());
    assert_eq!(actions, full_script_actions());
    assert_eq!(end, SessionState::Done);
    let mut texts: Vec<String> = Vec::new();
    for i in countdown_indices(&actions) {
        texts.push(countdown_text(i));
    }
    assert_eq!(
        texts,
        vec!["Hi 1 times!", "Hi 2 times!", "Hi 3 times!", "Hi 4 times!"]
    );
}

#[test]
fn every_countdown_send_is_separated_by_a_delay() {
    let (actions, _) = drive(&all_success_events());
    for w in actions.windows(2) {
        if let SessionAction::SendCountdown(i) = w[1] {
            if i > 1 {
                assert_eq!(w[0], SessionAction::Delay);
            }
        }
    }
}

#[test]
fn ping_failure_aborts_before_anything_else() {
    let (actions, end) = drive(&[SessionEvent::SendFailed, SessionEvent::SendOk]);
    assert_eq!(actions, vec![SessionAction::SendPing]);
    assert_eq!(end, SessionState::Aborted);
}

#[test]
fn peer_closing_before_replying_means_zero_countdown_messages() {
    let (actions, end) = drive(&[
        SessionEvent::SendOk,
        SessionEvent::PeerClosed,
        SessionEvent::SendOk,
        SessionEvent::SendOk,
    ]);
    assert_eq!(
        actions,
        vec![SessionAction::SendPing, SessionAction::AwaitMessage]
    );
    assert_eq!(end, SessionState::Aborted);
    assert!(countdown_indices(&actions).is_empty());
}

#[test]
fn receive_error_aborts_like_a_close() {
    let (actions, end) = drive(&[SessionEvent::SendOk, SessionEvent::ReceiveFailed]);
    assert_eq!(
        actions,
        vec![SessionAction::SendPing, SessionAction::AwaitMessage]
    );
    assert_eq!(end, SessionState::Aborted);
}

#[test]
fn disconnect_during_countdown_stops_immediately() {
    // The peer receives n messages, then the (n + 1)-th send fails; the
    // failed attempt is the last action, nothing follows it.
    for n in 0u8..4 {
        let mut events = vec![SessionEvent::SendOk, SessionEvent::MessageReceived];
        for _ in 0..n {
            events.push(SessionEvent::SendOk);
            events.push(SessionEvent::DelayElapsed);
        }
        events.push(SessionEvent::SendFailed);
        events.push(SessionEvent::DelayElapsed);
        events.push(SessionEvent::SendOk);
        let (actions, end) = drive(&events);
        assert_eq!(end, SessionState::Aborted);
        assert_eq!(countdown_indices(&actions), (1..=n + 1).collect::<Vec<u8>>());
        assert_eq!(actions.last(), Some(&SessionAction::SendCountdown(n + 1)));
    }
}

#[test]
fn two_interleaved_sessions_stay_independent() {
    // Two connections advance turn and turn about; the second one's peer
    // disconnects early. Each session sees only its own actions.
    let events_a = all_success_events();
    let events_b = vec![SessionEvent::SendOk, SessionEvent::PeerClosed];
    let mut state_a = init_state();
    let mut state_b = init_state();
    let mut actions_a: Vec<SessionAction> = Vec::new();
    let mut actions_b: Vec<SessionAction> = Vec::new();
    let mut ia: usize = 0;
    let mut ib: usize = 0;
    loop {
        let mut moved = false;
        if ia < events_a.len() && !is_terminal(&state_a) {
            actions_a.push(action_of(&state_a));
            state_a = next(state_a, events_a[ia]);
            ia += 1;
            moved = true;
        }
        if ib < events_b.len() && !is_terminal(&state_b) {
            actions_b.push(action_of(&state_b));
            state_b = next(state_b, events_b[ib]);
            ib += 1;
            moved = true;
        }
        if !moved {
            break;
        }
    }
    assert_eq!(actions_a, full_script_actions());
    assert_eq!(state_a, SessionState::Done);
    assert_eq!(
        actions_b,
        vec![SessionAction::SendPing, SessionAction::AwaitMessage]
    );
    assert_eq!(state_b, SessionState::Aborted);
}

#[test]
fn session_runs_the_same_without_an_identification_header() {
    // The recorded label defaults, and the exchange itself is unaffected:
    // the session takes no identity input at all.
    let label = agent_label(None);
    assert_eq!(label, "Unknown browser");
    let (actions, end) = drive(&all_success_events());
    assert_eq!(actions, full_script_actions());
    assert_eq!(end, SessionState::Done);
}

#[test]
fn terminal_states_absorb_events() {
    let done = next(SessionState::Done, SessionEvent::SendOk);
    assert_eq!(done, SessionState::Done);
    let aborted = next(SessionState::Aborted, SessionEvent::MessageReceived);
    assert_eq!(aborted, SessionState::Aborted);
    assert!(is_terminal(&SessionState::Done));
    assert!(is_terminal(&SessionState::Aborted));
}

#[test]
fn prescribed_actions_match_states() {
    assert_eq!(action_of(&SessionState::Greeting), SessionAction::SendPing);
    assert_eq!(action_of(&SessionState::AwaitReply), SessionAction::AwaitMessage);
    assert_eq!(
        action_of(&SessionState::Sending(3)),
        SessionAction::SendCountdown(3)
    );
    assert_eq!(action_of(&SessionState::Pausing(3)), SessionAction::Delay);
    assert_eq!(action_of(&SessionState::Done), SessionAction::Close);
    assert_eq!(action_of(&SessionState::Aborted), SessionAction::Close);
}
