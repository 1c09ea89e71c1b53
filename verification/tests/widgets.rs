use egui_inspect::base_type_inspect::{apply_list_edits, apply_toggle};
use egui_inspect::decimal::{i64_dec, u64_dec, usize_dec};
use egui_inspect::internal_paths::path_is_internally_handled;
use egui_inspect::model::TypeSyntax;
use egui_inspect::utils::get_path_str;
use egui_inspect::Widget;
use egui_inspect::{EguiInspect, InspectNumber, InspectString};

fn row(label: &str, value: &str) -> Widget {
    Widget::ValueRow { label: label.to_string(), value: value.to_string() }
}

#[test]
fn decimal_text_of_integers() {
    assert_eq!(u64_dec(0), "0");
    assert_eq!(u64_dec(7), "7");
    assert_eq!(u64_dec(120), "120");
    assert_eq!(u64_dec(u64::MAX), "18446744073709551615");
    assert_eq!(usize_dec(42), "42");
    assert_eq!(i64_dec(-5), "-5");
    assert_eq!(i64_dec(0), "0");
    assert_eq!(i64_dec(i64::MIN), "-9223372036854775808");
}

#[test]
fn numbers_plan_a_row_and_a_default_slider() {
    let n: u64 = 42;
    assert_eq!(n.inspect("n"), vec![row("n", "42")]);
    assert_eq!(
        n.inspect_mut("n"),
        vec![Widget::RangeInput {
            label: "n".to_string(),
            min: "0.0".to_string(),
            max: "100.0".to_string(),
            value: "42".to_string()
        }]
    );
    let m: i32 = -7;
    assert_eq!(m.inspect("m"), vec![row("m", "-7")]);
    assert_eq!(
        m.inspect_with_drag_value("m"),
        vec![Widget::NumberInput { label: "m".to_string(), value: "-7".to_string() }]
    );
    assert_eq!(
        m.inspect_with_slider("m", "-43.0", "125.0"),
        vec![Widget::RangeInput {
            label: "m".to_string(),
            min: "-43.0".to_string(),
            max: "125.0".to_string(),
            value: "-7".to_string()
        }]
    );
}

#[test]
fn booleans_plan_toggles() {
    assert_eq!(
        true.inspect("flag"),
        vec![Widget::ToggleInert { label: "flag".to_string(), value: true }]
    );
    assert_eq!(
        false.inspect_mut("flag"),
        vec![Widget::ToggleLive { label: "flag".to_string(), value: false }]
    );
}

#[test]
fn strings_plan_rows_and_edit_boxes() {
    let s = "hello".to_string();
    assert_eq!(s.inspect("s"), vec![row("s", "hello")]);
    assert_eq!(
        s.inspect_mut("s"),
        vec![Widget::SinglelineEdit { label: "s".to_string(), value: "hello".to_string() }]
    );
    assert_eq!(
        s.inspect_mut_multiline("s"),
        vec![Widget::MultilineEdit { label: "s".to_string(), value: "hello".to_string() }]
    );
    assert_eq!(
        s.inspect_mut_singleline("s"),
        vec![Widget::SinglelineEdit { label: "s".to_string(), value: "hello".to_string() }]
    );
}

#[test]
fn borrowed_text_is_not_editable() {
    let s: &'static str = "YetAnotherString";
    assert_eq!(s.inspect("raw"), vec![row("raw", "YetAnotherString")]);
    assert_eq!(
        s.inspect_mut("raw"),
        vec![Widget::InertText { label: "raw".to_string(), value: "YetAnotherString".to_string() }]
    );
}

#[test]
fn growable_sequences_plan_a_counted_group() {
    let v: Vec<u64> = vec![1, 2];
    assert_eq!(
        v.inspect("xs"),
        vec![
            Widget::GroupStart { label: "xs".to_string(), count: 2 },
            row("item", "1"),
            row("item", "2"),
            Widget::GroupEnd,
        ]
    );
    let edit = v.inspect_mut("xs");
    assert_eq!(
        edit,
        vec![
            Widget::GroupStart { label: "xs".to_string(), count: 2 },
            Widget::RangeInput {
                label: "item".to_string(),
                min: "0.0".to_string(),
                max: "100.0".to_string(),
                value: "1".to_string()
            },
            Widget::RangeInput {
                label: "item".to_string(),
                min: "0.0".to_string(),
                max: "100.0".to_string(),
                value: "2".to_string()
            },
            Widget::GroupEnd,
            Widget::ActionButton { label: "Add".to_string() },
            Widget::ActionButton { label: "Pop".to_string() },
        ]
    );

    let empty: Vec<u64> = vec![];
    assert_eq!(
        empty.inspect("xs"),
        vec![Widget::GroupStart { label: "xs".to_string(), count: 0 }, Widget::GroupEnd]
    );
}

#[test]
fn three_element_array_recurses_three_times() {
    let a: [u8; 3] = [5, 6, 7];
    assert_eq!(
        a.inspect("a"),
        vec![
            Widget::GroupStart { label: "a".to_string(), count: 3 },
            row("item", "5"),
            row("item", "6"),
            row("item", "7"),
            Widget::GroupEnd,
        ]
    );
    let edit = a.inspect_mut("a");
    assert_eq!(edit.len(), 5);
    assert_eq!(edit[0], Widget::GroupStart { label: "a".to_string(), count: 3 });
    assert_eq!(edit[4], Widget::GroupEnd);
}

#[test]
fn nested_containers_recurse() {
    let v: Vec<Vec<u64>> = vec![vec![9]];
    assert_eq!(
        v.inspect("outer"),
        vec![
            Widget::GroupStart { label: "outer".to_string(), count: 1 },
            Widget::GroupStart { label: "item".to_string(), count: 1 },
            row("item", "9"),
            Widget::GroupEnd,
            Widget::GroupEnd,
        ]
    );
}

#[test]
fn add_appends_one_default_element() {
    let mut v: Vec<u64> = vec![1, 2];
    apply_list_edits(&mut v, true, false);
    assert_eq!(v, vec![1, 2, 0]);

    let mut s: Vec<String> = vec!["a".to_string()];
    apply_list_edits(&mut s, true, false);
    assert_eq!(s, vec!["a".to_string(), String::new()]);
}

#[test]
fn pop_removes_the_last_element() {
    let mut v: Vec<u64> = vec![1, 2];
    apply_list_edits(&mut v, false, true);
    assert_eq!(v, vec![1]);
}

#[test]
fn pop_on_an_empty_sequence_is_a_no_op() {
    let mut v: Vec<u64> = vec![];
    apply_list_edits(&mut v, false, true);
    assert_eq!(v, Vec::<u64>::new());
}

#[test]
fn add_and_pop_together_cancel_out() {
    let mut v: Vec<bool> = vec![true];
    apply_list_edits(&mut v, true, true);
    assert_eq!(v, vec![true]);
    apply_list_edits(&mut v, false, false);
    assert_eq!(v, vec![true]);
}

#[test]
fn an_activated_toggle_flips_the_value() {
    let mut b = false;
    apply_toggle(&mut b, true);
    assert!(b);
    apply_toggle(&mut b, true);
    assert!(!b);
    apply_toggle(&mut b, false);
    assert!(!b);
}

#[test]
fn internally_handled_path_names() {
    for name in [
        "f32", "f64", "u8", "i8", "u16", "i16", "u32", "i32", "u64", "i64", "usize", "isize",
        "bool", "String", "str",
    ] {
        assert!(path_is_internally_handled(&name.to_string()), "{name}");
    }
    assert!(!path_is_internally_handled(&"Vec".to_string()));
    assert!(!path_is_internally_handled(&"u128".to_string()));
    assert!(!path_is_internally_handled(&String::new()));
}

#[test]
fn path_tokens_are_read_through_references() {
    assert_eq!(get_path_str(&TypeSyntax::Plain("u32".to_string())), Some("u32".to_string()));
    assert_eq!(
        get_path_str(&TypeSyntax::Reference(Box::new(TypeSyntax::Plain("str".to_string())))),
        Some("str".to_string())
    );
    assert_eq!(get_path_str(&TypeSyntax::Qualified), None);
    assert_eq!(get_path_str(&TypeSyntax::Other), Some(String::new()));
}
