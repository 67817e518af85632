use framec::runtime::{deserialize, serialize, Bindings, Value};

fn states() -> Vec<String> {
    vec!["S0".to_string(), "S1".to_string(), "S2".to_string()]
}

#[test]
fn serialization_round_trip() {
    let mut domain = Bindings::new();
    domain.declare("a", Value::Int(3));
    domain.declare("b", Value::Text("x".to_string()));
    let bag = serialize("S1", &domain);
    assert_eq!(bag.len(), 3);
    assert_eq!(bag.entries[0].0, "state");
    assert!(bag.entries[0].1.same(&Value::Text("S1".to_string())));
    let (state, restored) = deserialize(&bag, &states()).expect("the bag reads back");
    assert_eq!(state, 1);
    assert_eq!(restored.len(), 2);
    assert_eq!(restored.entries[0].0, "a");
    assert!(restored.entries[0].1.same(&Value::Int(3)));
    assert_eq!(restored.entries[1].0, "b");
    assert!(restored.entries[1].1.same(&Value::Text("x".to_string())));
}

#[test]
fn bag_without_a_state_tag_reads_as_nothing() {
    let mut bag = Bindings::new();
    assert!(deserialize(&bag, &states()).is_none());
    bag.declare("a", Value::Int(3));
    assert!(deserialize(&bag, &states()).is_none());
}

#[test]
fn bag_of_an_unknown_state_reads_as_nothing() {
    let bag = serialize("S9", &Bindings::new());
    assert!(deserialize(&bag, &states()).is_none());
    let mut odd = Bindings::new();
    odd.declare("state", Value::Int(1));
    assert!(deserialize(&odd, &states()).is_none());
}

#[test]
fn domain_variable_named_state_survives() {
    let mut domain = Bindings::new();
    domain.declare("state", Value::Text("S2".to_string()));
    let bag = serialize("S0", &domain);
    let (state, restored) = deserialize(&bag, &states()).unwrap();
    assert_eq!(state, 0);
    assert_eq!(restored.len(), 1);
    assert!(restored.entries[0].1.same(&Value::Text("S2".to_string())));
}
