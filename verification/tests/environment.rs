use framec::runtime::{Bindings, EmptyEnvironment, Environment, ScopedEnvironment, Value};

const EMPTY: EmptyEnvironment = EmptyEnvironment {};

struct TestArgs {
    x: i32,
    y: bool,
    z: Option<f32>,
}

impl Environment for TestArgs {
    fn is_empty(&self) -> bool {
        false
    }
    fn lookup(&self, name: &str) -> Option<Value> {
        match name {
            "x" => Some(Value::Int(self.x as i64)),
            "y" => Some(Value::Bool(self.y)),
            "z" => Some(match self.z {
                Some(z) => Value::Decimal(format!("{}", z)),
                None => Value::Null,
            }),
            _ => None,
        }
    }
}

fn as_i32(v: &Value) -> Option<i32> {
    v.as_int().map(|n| n as i32)
}

fn as_opt_f32(v: &Value) -> Option<Option<f32>> {
    match v {
        Value::Decimal(text) => Some(Some(text.parse().unwrap())),
        Value::Null => Some(None),
        _ => None,
    }
}

fn as_f32(v: &Value) -> Option<f32> {
    match v {
        Value::Decimal(text) => text.parse().ok(),
        _ => None,
    }
}

#[test]
fn empty_environment_is_empty() {
    assert!(EMPTY.is_empty());
}

#[test]
fn empty_environment_returns_none() {
    assert!(EMPTY.lookup("x").is_none());
    assert!(EMPTY.lookup("y").is_none());
    assert!(EMPTY.lookup("z").is_none());
}

#[test]
fn struct_environment_not_empty() {
    let args = TestArgs {
        x: 42,
        y: false,
        z: Some(3.14),
    };
    assert!(!args.is_empty());
}

#[test]
fn struct_environment_lookup_success() {
    let args = TestArgs {
        x: 42,
        y: false,
        z: Some(3.14),
    };

    let opt_x = args.lookup("x");
    assert!(opt_x.is_some());
    let opt_i32 = as_i32(&opt_x.unwrap());
    assert!(opt_i32.is_some());
    assert_eq!(opt_i32.unwrap(), 42);

    let opt_y = args.lookup("y");
    assert!(opt_y.is_some());
    let opt_bool = opt_y.unwrap().as_bool();
    assert!(opt_bool.is_some());
    assert_eq!(opt_bool.unwrap(), false);

    let opt_y = args.lookup("z");
    assert!(opt_y.is_some());
    let opt_bool = as_opt_f32(&opt_y.unwrap());
    assert!(opt_bool.is_some());
    assert_eq!(opt_bool.unwrap(), Some(3.14));
}

#[test]
fn struct_environment_lookup_type_error() {
    let args = TestArgs {
        x: 42,
        y: false,
        z: Some(3.14),
    };
    let opt_x = args.lookup("x");
    assert!(opt_x.is_some());
    assert!(opt_x.unwrap().as_bool().is_none());

    let opt_y = args.lookup("y");
    assert!(opt_y.is_some());
    let y = opt_y.unwrap();
    assert!(as_i32(&y).is_none());

    let opt_z = args.lookup("z");
    assert!(opt_z.is_some());
    assert!(as_f32(&y).is_none());
    assert!(y.as_int().is_none());
}

#[test]
fn struct_environment_lookup_undefined() {
    let args = TestArgs {
        x: 42,
        y: false,
        z: Some(3.14),
    };
    assert!(args.lookup("w").is_none());
}

#[test]
fn bindings_find_the_first_of_a_name() {
    let mut b = Bindings::new();
    assert!(b.is_empty());
    b.declare("a", Value::Int(3));
    b.declare("b", Value::Text("x".to_string()));
    b.declare("a", Value::Int(4));
    assert!(!b.is_empty());
    assert_eq!(b.len(), 3);
    assert_eq!(b.position("a"), Some(0));
    assert_eq!(b.position("b"), Some(1));
    assert_eq!(b.position("c"), None);
    assert!(b.lookup("a").unwrap().same(&Value::Int(3)));
    assert!(b.lookup("c").is_none());
    assert!(b.assign("a", Value::Bool(true)));
    assert!(!b.assign("c", Value::Null));
    assert!(b.get("a").unwrap().same(&Value::Bool(true)));
    assert!(b.entries[2].1.same(&Value::Int(4)));
    let copy = b.duplicate();
    assert_eq!(copy.len(), 3);
    assert!(copy.get("b").unwrap().same(&Value::Text("x".to_string())));
}

#[test]
fn values_compare_by_kind_and_content() {
    assert!(Value::Null.same(&Value::Null));
    assert!(!Value::Int(1).same(&Value::Int(2)));
    assert!(!Value::Int(1).same(&Value::Bool(true)));
    assert!(Value::Decimal("1.5".to_string()).same(&Value::Decimal("1.5".to_string())));
    assert!(!Value::Decimal("1.5".to_string()).same(&Value::Text("1.5".to_string())));
    assert!(Value::Text("a".to_string()).duplicate().same(&Value::Text("a".to_string())));
    assert_eq!(Value::Int(-7).as_int(), Some(-7));
    assert_eq!(Value::Bool(true).as_bool(), Some(true));
}

#[test]
fn scoped_environment_finds_the_innermost_binding() {
    let mut env = ScopedEnvironment {
        domain: Bindings::new(),
        state_params: Bindings::new(),
        state_vars: Bindings::new(),
        handler_params: Bindings::new(),
        handler_vars: Bindings::new(),
    };
    assert!(env.is_empty());
    assert!(env.lookup("x").is_none());
    env.domain.declare("x", Value::Int(1));
    env.domain.declare("d", Value::Bool(true));
    assert!(!env.is_empty());
    assert!(env.lookup("x").unwrap().same(&Value::Int(1)));
    env.state_params.declare("x", Value::Int(2));
    assert!(env.lookup("x").unwrap().same(&Value::Int(2)));
    env.handler_vars.declare("x", Value::Int(3));
    assert!(env.lookup("x").unwrap().same(&Value::Int(3)));
    assert!(env.lookup("d").unwrap().same(&Value::Bool(true)));
    assert!(env.lookup("y").is_none());
}
