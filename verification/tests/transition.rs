use framec::runtime::{TransitionInfo, TransitionKind};
use framec::transition::{Transition, TransitionState};
use std::sync::Mutex;

type Log = Vec<String>;

#[test]
/// Test that transition works and triggers enter and exit events.
fn transition_events() {
    let mut sm = Transition::new();
    sm.clear_all();
    sm.transit();
    assert_eq!(sm.state, TransitionState::S1);
    assert_eq!(sm.exits, vec!["S0"]);
    assert_eq!(sm.enters, vec!["S1"]);
}

#[test]
/// Test that change-state works and does not trigger events.
fn change_state_no_events() {
    let mut sm = Transition::new();
    sm.clear_all();
    sm.change();
    assert_eq!(sm.state, TransitionState::S1);
    sm.change();
    assert_eq!(sm.state, TransitionState::S2);
    sm.change();
    assert_eq!(sm.state, TransitionState::S3);
    sm.change();
    assert_eq!(sm.state, TransitionState::S4);
    assert!(sm.exits.is_empty());
    assert!(sm.enters.is_empty());
}

#[test]
/// Test transition that triggers another transition in an enter event
/// handler.
fn cascading_transition() {
    let mut sm = Transition::new();
    sm.change();
    sm.clear_all();
    assert_eq!(sm.state, TransitionState::S1);
    sm.transit();
    assert_eq!(sm.state, TransitionState::S3);
    assert_eq!(sm.exits, vec!["S1", "S2"]);
    assert_eq!(sm.enters, vec!["S2", "S3"]);
}

#[test]
/// Test transition that triggers a change-state from an enter event
/// handler.
fn cascading_change_state() {
    let mut sm = Transition::new();
    sm.change();
    sm.change();
    sm.change();
    sm.clear_all();
    assert_eq!(sm.state, TransitionState::S3);
    sm.transit();
    assert_eq!(sm.state, TransitionState::S0);
    assert_eq!(sm.exits, vec!["S3"]);
    assert_eq!(sm.enters, vec!["S4"]);
}

/// Function to register as a callback to log transitions.
fn log_transits(log: &Mutex<Log>, info: &TransitionInfo) {
    let old_state = info.old_state.as_str();
    let new_state = info.new_state.as_str();
    match info.kind {
        TransitionKind::ChangeState => {
            log.lock()
                .unwrap()
                .push(format!("{}->>{}", old_state, new_state));
        }
        TransitionKind::Transition => {
            log.lock()
                .unwrap()
                .push(format!("{}->{}", old_state, new_state));
        }
    }
}

/// Calls the observer for each notice that the machine has recorded.
fn deliver(sm: &mut Transition, observer: usize, callback: impl Fn(&TransitionInfo)) {
    for notice in sm.callback_manager().take_notices() {
        assert_eq!(notice.observer, observer);
        callback(&notice.info);
    }
}

#[test]
/// Test transition callbacks.
fn transition_callback() {
    let transits = Mutex::new(Vec::new());
    let mut sm = Transition::new();
    let id = sm.callback_manager().add_transition_callback().unwrap();
    let callback = |i: &TransitionInfo| {
        log_transits(&transits, i);
    };
    sm.transit();
    deliver(&mut sm, id, &callback);
    assert_eq!(*transits.lock().unwrap(), vec!["S0->S1"]);
    transits.lock().unwrap().clear();
    sm.transit();
    deliver(&mut sm, id, &callback);
    assert_eq!(*transits.lock().unwrap(), vec!["S1->S2", "S2->S3"]);
}

#[test]
/// Test change-state callbacks.
fn change_state_callback() {
    let transits = Mutex::new(Vec::new());
    let mut sm = Transition::new();
    let id = sm.callback_manager().add_transition_callback().unwrap();
    let callback = |i: &TransitionInfo| {
        log_transits(&transits, i);
    };
    sm.change();
    deliver(&mut sm, id, &callback);
    assert_eq!(*transits.lock().unwrap(), vec!["S0->>S1"]);
    transits.lock().unwrap().clear();
    sm.change();
    deliver(&mut sm, id, &callback);
    assert_eq!(*transits.lock().unwrap(), vec!["S1->>S2"]);
    transits.lock().unwrap().clear();
    sm.change();
    deliver(&mut sm, id, &callback);
    assert_eq!(*transits.lock().unwrap(), vec!["S2->>S3"]);
    transits.lock().unwrap().clear();
    sm.transit();
    deliver(&mut sm, id, &callback);
    assert_eq!(*transits.lock().unwrap(), vec!["S3->S4", "S4->>S0"]);
}

#[test]
/// Test transition hook method.
fn transition_hook() {
    let mut sm = Transition::new();
    sm.transit();
    assert_eq!(sm.hooks, vec!["S0->S1"]);
    sm.clear_all();
    sm.transit();
    assert_eq!(sm.hooks, vec!["S1->S2", "S2->S3"]);
}

#[test]
/// Test change-state hook method.
fn change_state_hook() {
    let mut sm = Transition::new();
    sm.change();
    assert_eq!(sm.hooks, vec!["S0->>S1"]);
    sm.clear_all();
    sm.change();
    assert_eq!(sm.hooks, vec!["S1->>S2"]);
    sm.clear_all();
    sm.change();
    assert_eq!(sm.hooks, vec!["S2->>S3"]);
    sm.clear_all();
    sm.transit();
    assert_eq!(sm.hooks, vec!["S3->S4", "S4->>S0"]);
}

#[test]
fn observers_are_told_in_the_order_of_registration() {
    let mut sm = Transition::new();
    let first = sm.add_transition_callback().unwrap();
    let second = sm.add_transition_callback().unwrap();
    assert_eq!((first, second), (0, 1));
    sm.transit();
    let notices = sm.callback_manager().take_notices();
    assert_eq!(notices.len(), 2);
    assert_eq!(notices[0].observer, 0);
    assert_eq!(notices[1].observer, 1);
    assert_eq!(notices[1].info.kind, TransitionKind::Transition);
    assert_eq!(notices[1].info.old_state, "S0");
    assert_eq!(notices[1].info.new_state, "S1");
    assert!(sm.callback_manager().take_notices().is_empty());
}

#[test]
fn actions_log_what_they_are_given() {
    let mut sm = Transition::new();
    sm.enter("A".to_string());
    sm.exit("B".to_string());
    sm.transition_hook(TransitionState::S2, TransitionState::S0);
    sm.change_state_hook(TransitionState::S4, TransitionState::S1);
    assert_eq!(sm.enters, vec!["A"]);
    assert_eq!(sm.exits, vec!["B"]);
    assert_eq!(sm.hooks, vec!["S2->S0", "S4->>S1"]);
    assert_eq!(sm.state, TransitionState::S0);
}

#[test]
fn last_state_handles_neither_event() {
    let mut sm = Transition::new();
    sm.change();
    sm.change();
    sm.change();
    sm.change();
    sm.clear_all();
    sm.transit();
    sm.change();
    assert_eq!(sm.state, TransitionState::S4);
    assert!(sm.hooks.is_empty());
    assert!(sm.exits.is_empty());
}
