use builder::companion::Companion;
use builder::instance::{Builder, MissingField};
use builder::shape::Field;
use builder::syntax::parse;

#[derive(Clone, Debug, PartialEq)]
enum Value {
    Text(String),
    List(Vec<String>),
}

fn text(s: &str) -> Value {
    Value::Text(s.to_string())
}

fn list(items: &[&str]) -> Value {
    Value::List(items.iter().map(|s| s.to_string()).collect())
}

fn companion(record: &str, names: &[&str]) -> Companion {
    Companion {
        record: record.to_string(),
        fields: names
            .iter()
            .map(|n| Field { name: n.to_string(), ty: "u32".to_string() })
            .collect(),
    }
}

fn command() -> Companion {
    Companion::of(
        parse("struct Command { executable: String, args: Vec<String>, env: Vec<String>, current_dir: String }")
            .unwrap(),
    )
}

fn missing(r: Result<Vec<u32>, MissingField>) -> String {
    match r {
        Ok(values) => panic!("built {:?}", values),
        Err(e) => e.field,
    }
}

#[test]
fn constructor_starts_every_field_empty() {
    let b: Builder<u32> = companion("R", &["a", "b", "c"]).builder();
    assert_eq!(b.len(), 3);
    assert_eq!(b.slots[0].name, "a");
    assert_eq!(b.slots[1].name, "b");
    assert_eq!(b.slots[2].name, "c");
    assert!(b.slots.iter().all(|s| s.value.is_none()));
    assert!(!b.is_set(0));
    assert!(!b.is_set(3));
}

#[test]
fn untouched_build_names_the_first_field() {
    for names in [&["only"][..], &["a", "b"][..], &["z", "y", "x", "w"][..]] {
        let b: Builder<u32> = companion("R", names).builder();
        assert_eq!(missing(b.build()), names[0]);
    }
}

#[test]
fn every_field_set_once_builds_in_any_order() {
    let orders: [[usize; 3]; 6] =
        [[0, 1, 2], [0, 2, 1], [1, 0, 2], [1, 2, 0], [2, 0, 1], [2, 1, 0]];
    for order in orders {
        let mut b: Builder<u32> = companion("R", &["a", "b", "c"]).builder();
        for field in order {
            b.set(field, 10 + field as u32);
        }
        assert_eq!(b.build().unwrap(), vec![10, 11, 12]);
    }
}

#[test]
fn last_write_wins() {
    let mut b: Builder<u32> = companion("R", &["a", "b"]).builder();
    b.set(0, 1);
    b.set(1, 2);
    b.set(0, 3);
    b.set(0, 4);
    assert_eq!(b.build().unwrap(), vec![4, 2]);
}

#[test]
fn failure_names_the_first_unset_field_in_declaration_order() {
    let mut b: Builder<u32> = companion("R", &["a", "b", "c"]).builder();
    b.set(2, 30);
    b.set(1, 20);
    assert_eq!(missing(b.build()), "a");
}

#[test]
fn failure_reports_one_field_at_a_time() {
    let mut b: Builder<u32> = companion("R", &["a", "b", "c"]).builder();
    b.set(1, 20);
    assert_eq!(missing(b.build()), "a");
    b.set(0, 10);
    assert_eq!(missing(b.build()), "c");
    b.set(2, 30);
    assert_eq!(b.build().unwrap(), vec![10, 20, 30]);
}

#[test]
fn command_without_env_fails_naming_env() {
    let mut b: Builder<Value> = command().builder();
    assert!(b.set_named("executable", text("cargo")));
    assert!(b.set_named("args", list(&["build", "--release"])));
    let error = b.build().unwrap_err();
    assert_eq!(error.field, "env");
    assert_eq!(error.message(), "env is not set.");
}

#[test]
fn command_with_all_fields_builds_the_supplied_values() {
    let mut b: Builder<Value> = command().builder();
    assert!(b.set_named("executable", text("cargo")));
    assert!(b.set_named("args", list(&["build", "--release"])));
    assert!(b.set_named("env", list(&[])));
    assert!(b.set_named("current_dir", text("..")));
    assert_eq!(
        b.build().unwrap(),
        vec![text("cargo"), list(&["build", "--release"]), list(&[]), text("..")]
    );
}

#[test]
fn build_leaves_the_companion_as_it_was() {
    let mut b: Builder<u32> = companion("R", &["a", "b"]).builder();
    b.set(0, 1).set(1, 2);
    assert_eq!(b.build().unwrap(), vec![1, 2]);
    assert_eq!(b.build().unwrap(), vec![1, 2]);
    assert!(b.is_set(0) && b.is_set(1));
}

#[test]
fn setters_chain() {
    let mut b: Builder<u32> = companion("R", &["a", "b", "c"]).builder();
    b.set(2, 3).set(0, 1).set(1, 2).set(2, 33);
    assert_eq!(b.build().unwrap(), vec![1, 2, 33]);
}

#[test]
fn position_finds_the_first_field_of_that_name() {
    let b: Builder<u32> = companion("R", &["a", "b", "a"]).builder();
    assert_eq!(b.position("a"), Some(0));
    assert_eq!(b.position("b"), Some(1));
    assert_eq!(b.position("c"), None);
    assert_eq!(b.position(""), None);
}

#[test]
fn set_named_without_such_a_field_changes_nothing() {
    let mut b: Builder<u32> = companion("R", &["a", "b"]).builder();
    assert!(!b.set_named("c", 7));
    assert!(!b.is_set(0) && !b.is_set(1));
    assert!(b.set_named("b", 8));
    assert!(!b.is_set(0) && b.is_set(1));
    assert_eq!(b.slots[1].value, Some(8));
    assert_eq!(b.slots[1].name, "b");
}

#[test]
fn missing_field_message_names_the_field() {
    let e = MissingField { field: "current_dir".to_string() };
    assert_eq!(e.message(), "current_dir is not set.");
    assert_eq!(MissingField { field: String::new() }.message(), " is not set.");
}

#[test]
fn a_companion_without_fields_builds_an_empty_record() {
    let b: Builder<u32> = companion("R", &[]).builder();
    assert_eq!(b.len(), 0);
    assert_eq!(b.build().unwrap(), Vec::<u32>::new());
}
