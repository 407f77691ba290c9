use gtopia::message::FieldValue;
use gtopia::prefs::{choice_index, PreferenceValues};

#[test]
fn set_then_get() {
    let mut v = PreferenceValues::new();
    assert_eq!(v.len(), 0);
    v.set("name".to_string(), FieldValue::Text("Ada".to_string()));
    v.set("count".to_string(), FieldValue::Number(3));
    assert_eq!(v.len(), 2);
    match v.get(&"name".to_string()) {
        Some(FieldValue::Text(t)) => assert_eq!(t, "Ada"),
        other => panic!("unexpected {:?}", other),
    }
    assert!(matches!(v.get(&"count".to_string()), Some(FieldValue::Number(3))));
    assert!(v.get(&"missing".to_string()).is_none());
}

#[test]
fn equal_keys_replace() {
    let mut v = PreferenceValues::new();
    v.set("flag".to_string(), FieldValue::Flag(false));
    v.set("flag".to_string(), FieldValue::Flag(true));
    assert_eq!(v.len(), 1);
    assert!(matches!(v.get(&"flag".to_string()), Some(FieldValue::Flag(true))));
    assert_eq!(v.entries().len(), 1);
}

#[test]
fn choice_index_finds_first_match() {
    let options = vec!["low".to_string(), "mid".to_string(), "high".to_string(), "mid".to_string()];
    assert_eq!(choice_index(&options, &"mid".to_string()), 1);
    assert_eq!(choice_index(&options, &"high".to_string()), 2);
    assert_eq!(choice_index(&options, &"none".to_string()), 0);
    assert_eq!(choice_index(&vec![], &"x".to_string()), 0);
}
