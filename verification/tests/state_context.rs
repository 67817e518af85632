use framec::state_context::{StateContext, StateContextSm, StateContextSmState};

#[test]
fn transition() {
    let mut sm = StateContextSm::new();
    assert_eq!(sm.tape, vec!["a=3", "b=5", "x=15"]);
    sm.tape.clear();

    sm.inc();
    let r = sm.inc();
    assert_eq!(r, 17);
    assert_eq!(sm.tape, vec!["x=16", "x=17"]);
    sm.tape.clear();

    sm.next(3);
    assert_eq!(sm.tape, vec!["c=10", "x=27", "a=30", "y=17", "z=47"]);
    sm.tape.clear();

    sm.inc();
    sm.inc();
    let r = sm.inc();
    assert_eq!(r, 50);
    assert_eq!(sm.tape, vec!["z=48", "z=49", "z=50"]);
}

#[test]
fn change_state() {
    let mut sm = StateContextSm::new();
    sm.tape.clear();
    sm.inc();
    assert_eq!(sm.tape, vec!["x=16"]);
    sm.tape.clear();

    sm.change(10);
    sm.log_state();
    assert_eq!(sm.tape, vec!["y=26", "z=0"]);
    sm.tape.clear();

    sm.inc();
    sm.change(100);
    sm.log_state();
    assert_eq!(sm.tape, vec!["z=1", "tmp=127", "x=0"]);
}

#[test]
fn log_writes_name_and_value() {
    let mut sm = StateContextSm::new();
    sm.tape.clear();
    sm.log("n".to_string(), -12);
    sm.log("zero".to_string(), 0);
    sm.log("big".to_string(), i32::MIN);
    assert_eq!(sm.tape, vec!["n=-12", "zero=0", "big=-2147483648"]);
}

#[test]
fn events_a_state_does_not_handle_change_nothing() {
    let mut sm = StateContextSm::new();
    sm.next(1);
    assert_eq!(sm.state, StateContextSmState::Bar);
    sm.tape.clear();
    sm.next(5);
    assert_eq!(sm.state, StateContextSmState::Bar);
    assert_eq!(sm.state_context, StateContext::Bar { y: 15, z: 25 });
    assert!(sm.tape.is_empty());
}
