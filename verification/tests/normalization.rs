use plex_norm::coerce::{
    bool_from_anything, comma_separated_numbers, comma_separated_strings,
    option_bool_from_anything, option_seconds_to_timestamp, Timestamp,
};
use plex_norm::error::LoadError;
use plex_norm::raw::{RawAttr, RawElement, RawValue};

fn attr(name: &str, value: &str) -> RawAttr {
    RawAttr {
        name: name.to_string(),
        value: RawValue::Text(value.to_string()),
    }
}

#[test]
fn bool_coercion_accepts_all_declared_forms() {
    assert_eq!(bool_from_anything(&RawValue::Flag(true)).unwrap(), true);
    assert_eq!(bool_from_anything(&RawValue::Flag(false)).unwrap(), false);
    assert_eq!(bool_from_anything(&RawValue::Num(1)).unwrap(), true);
    assert_eq!(bool_from_anything(&RawValue::Num(0)).unwrap(), false);
    assert_eq!(bool_from_anything(&RawValue::Num(7)).unwrap(), true);
    assert_eq!(
        bool_from_anything(&RawValue::Text("true".to_string())).unwrap(),
        true
    );
    assert_eq!(
        bool_from_anything(&RawValue::Text("FALSE".to_string())).unwrap(),
        false
    );
    assert_eq!(
        bool_from_anything(&RawValue::Text("1".to_string())).unwrap(),
        true
    );
    assert_eq!(
        bool_from_anything(&RawValue::Text("0".to_string())).unwrap(),
        false
    );
}

#[test]
fn bool_coercion_empty_string_is_false() {
    assert_eq!(
        bool_from_anything(&RawValue::Text(String::new())).unwrap(),
        false
    );
}

#[test]
fn bool_coercion_rejects_other_strings() {
    let r = bool_from_anything(&RawValue::Text("yes".to_string()));
    assert!(matches!(r, Err(LoadError::InvalidBoolean)));
}

#[test]
fn optional_bool_absent_is_no_value() {
    assert_eq!(option_bool_from_anything(None).unwrap(), None);
    let v = RawValue::Text("True".to_string());
    assert_eq!(option_bool_from_anything(Some(&v)).unwrap(), Some(true));
}

#[test]
fn empty_string_is_empty_list_not_absent() {
    let r = comma_separated_strings("");
    assert_eq!(r.len(), 0);
}

#[test]
fn comma_list_splits_strings() {
    let r = comma_separated_strings("a,b,,c");
    assert_eq!(r, vec!["a", "b", "", "c"]);
}

#[test]
fn comma_list_parses_numbers() {
    let r = comma_separated_numbers("1,2,3", u64::MAX).unwrap();
    assert_eq!(r, vec![1, 2, 3]);
}

#[test]
fn comma_list_one_bad_element_fails_whole_field() {
    assert!(comma_separated_numbers("1,x,3", u64::MAX).is_none());
    assert!(comma_separated_numbers("1,70000,3", u16::MAX as u64).is_none());
}

#[test]
fn timestamp_from_integer_seconds() {
    let v = RawValue::Num(1_700_000_000);
    let t = option_seconds_to_timestamp(Some(&v)).unwrap();
    assert_eq!(t, Some(Timestamp { secs: 1_700_000_000 }));
}

#[test]
fn timestamp_from_numeric_string() {
    let v = RawValue::Text("1700000000".to_string());
    let t = option_seconds_to_timestamp(Some(&v)).unwrap();
    assert_eq!(t, Some(Timestamp { secs: 1_700_000_000 }));
}

#[test]
fn timestamp_absent_or_empty_is_no_value() {
    assert_eq!(option_seconds_to_timestamp(None).unwrap(), None);
    let v = RawValue::Text(String::new());
    assert_eq!(option_seconds_to_timestamp(Some(&v)).unwrap(), None);
}

#[test]
fn timestamp_non_numeric_fails() {
    let v = RawValue::Text("soon".to_string());
    let r = option_seconds_to_timestamp(Some(&v));
    assert!(matches!(r, Err(LoadError::InvalidTimestamp)));
}

#[test]
fn timestamp_out_of_chrono_range_fails() {
    let v = RawValue::Num(i64::MAX);
    let r = option_seconds_to_timestamp(Some(&v));
    assert!(matches!(r, Err(LoadError::InvalidTimestamp)));
}

#[test]
fn attribute_lookup_ignores_later_duplicates() {
    let el = RawElement {
        name: "MediaContainer".to_string(),
        attrs: vec![attr("k", "first"), attr("k", "second")],
        children: vec![],
    };
    match plex_norm::raw::get_attr(&el.attrs, "k") {
        Some(RawValue::Text(s)) => assert_eq!(s, "first"),
        _ => panic!("attribute not found"),
    }
    assert!(plex_norm::raw::get_attr(&el.attrs, "missing").is_none());
}
