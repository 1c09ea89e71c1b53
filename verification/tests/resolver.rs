use egui_inspect::attrs::{from_entries, AttributeArgs};
use egui_inspect::model::{AttrEntry, AttrValue, Diag};

fn flag(key: &str) -> AttrEntry {
    AttrEntry { key: key.to_string(), value: AttrValue::Flag }
}

fn num(key: &str, text: &str) -> AttrEntry {
    AttrEntry { key: key.to_string(), value: AttrValue::NumLit(text.to_string()) }
}

fn strlit(key: &str, text: &str) -> AttrEntry {
    AttrEntry { key: key.to_string(), value: AttrValue::StrLit(text.to_string()) }
}

#[test]
fn defaults_apply_when_no_annotations() {
    let args = from_entries("speed", &vec![]).unwrap();
    assert_eq!(args, AttributeArgs::default());
    assert_eq!(args.name, None);
    assert!(!args.hide);
    assert!(!args.no_edit);
    assert!(args.slider);
    assert_eq!(args.min, "0.0");
    assert_eq!(args.max, "100.0");
    assert!(!args.multiline);
    assert_eq!(args.custom_func, None);
    assert_eq!(args.custom_func_mut, None);
}

#[test]
fn flags_and_values_are_read() {
    let entries = vec![
        flag("hide"),
        flag("no_edit"),
        AttrEntry { key: "slider".to_string(), value: AttrValue::BoolLit(false) },
        flag("multiline"),
        num("min", "12.0"),
        num("max", "53.0"),
        strlit("name", "A proper field name"),
    ];
    let args = from_entries("speed", &entries).unwrap();
    assert!(args.hide);
    assert!(args.no_edit);
    assert!(!args.slider);
    assert!(args.multiline);
    assert_eq!(args.min, "12.0");
    assert_eq!(args.max, "53.0");
    assert_eq!(args.name.as_deref(), Some("A proper field name"));
}

#[test]
fn handler_paths_are_resolved() {
    let entries = vec![strlit("custom_func_mut", "crate::custom_bool_inspect")];
    let args = from_entries("boolean", &entries).unwrap();
    assert_eq!(args.custom_func_mut.as_deref(), Some("crate::custom_bool_inspect"));

    let entries = vec![strlit("custom_func", "show_it")];
    let args = from_entries("boolean", &entries).unwrap();
    assert_eq!(args.custom_func.as_deref(), Some("show_it"));
}

#[test]
fn bad_handler_path_is_a_diagnostic() {
    let entries = vec![strlit("custom_func_mut", "not a path !!!")];
    let err = from_entries("boolean", &entries).unwrap_err();
    assert_eq!(
        err,
        Diag::UnresolvedHandler {
            field: "boolean".to_string(),
            handler: "not a path !!!".to_string()
        }
    );
    assert_eq!(
        err.message(),
        "could not resolve function `not a path !!!` for field `boolean`"
    );
}

#[test]
fn unknown_key_is_a_diagnostic() {
    let entries = vec![flag("hidden")];
    let err = from_entries("speed", &entries).unwrap_err();
    assert_eq!(
        err,
        Diag::UnknownAttribute { field: "speed".to_string(), key: "hidden".to_string() }
    );
    assert_eq!(err.message(), "unknown attribute `hidden` on field `speed`");
}

#[test]
fn duplicate_key_is_a_diagnostic() {
    let entries = vec![num("min", "1.0"), num("min", "2.0")];
    let err = from_entries("speed", &entries).unwrap_err();
    assert_eq!(
        err,
        Diag::DuplicateAttribute { field: "speed".to_string(), key: "min".to_string() }
    );
    assert_eq!(err.message(), "duplicate attribute `min` on field `speed`");
}

#[test]
fn numeric_text_forms_are_checked() {
    for good in ["0", "12", "-43.0", "12.", "2.5", "1e3", "2.5E-4", "1e+9"] {
        let entries = vec![num("min", good)];
        assert!(from_entries("speed", &entries).is_ok(), "{good}");
    }
    for bad in ["", "-", ".", ".5", "1.2.3", "--5", "1e", "twelve", "12x"] {
        let entries = vec![num("min", bad)];
        assert_eq!(
            from_entries("speed", &entries).unwrap_err(),
            Diag::MalformedValue { field: "speed".to_string(), key: "min".to_string() },
            "{bad}"
        );
    }
}

#[test]
fn non_numeric_min_is_a_diagnostic() {
    let entries = vec![strlit("min", "twelve")];
    let err = from_entries("speed", &entries).unwrap_err();
    assert_eq!(
        err,
        Diag::MalformedValue { field: "speed".to_string(), key: "min".to_string() }
    );
    assert_eq!(err.message(), "malformed value for attribute `min` on field `speed`");
}

#[test]
fn wrong_kind_for_flag_and_name_is_a_diagnostic() {
    let entries = vec![num("hide", "1.0")];
    let err = from_entries("speed", &entries).unwrap_err();
    assert_eq!(
        err,
        Diag::MalformedValue { field: "speed".to_string(), key: "hide".to_string() }
    );

    let entries = vec![flag("name")];
    let err = from_entries("speed", &entries).unwrap_err();
    assert_eq!(
        err,
        Diag::MalformedValue { field: "speed".to_string(), key: "name".to_string() }
    );
}

#[test]
fn first_bad_entry_wins() {
    let entries = vec![flag("nonsense"), num("min", "1.0"), num("min", "2.0")];
    let err = from_entries("speed", &entries).unwrap_err();
    assert_eq!(
        err,
        Diag::UnknownAttribute { field: "speed".to_string(), key: "nonsense".to_string() }
    );
}
