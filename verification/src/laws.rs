//! Properties of the generation policy, stated and proved over the spec
//! functions that the public contracts use.

use vstd::prelude::*;

use crate::EguiInspect;
use crate::attrs::ArgsModel;
use crate::attrs::display_name;
use crate::base_type_inspect::items_display_plan;
use crate::base_type_inspect::items_edit_plan;
use crate::base_type_inspect::lemma_items_display_step;
use crate::base_type_inspect::lemma_items_edit_step;
use crate::decimal::dec_of;
use crate::directive::DirectiveV;
use crate::directive::FieldTargetV;
use crate::directive::directive_code;
use crate::engine::field_directive;
use crate::engine::struct_body;
use crate::engine::tuple_field_directive;
use crate::engine::unnamed_body;
use crate::internal_paths::is_number_path;
use crate::model::Data;
use crate::model::DiagV;
use crate::model::NamedField;
use crate::utils::default_call_spec;
use crate::utils::path_str_of;
use crate::widget::WidgetV;

verus! {

broadcast use vstd::array::array_len_matches_n;

/// A hidden field emits nothing: whatever the mode, its directive is the
/// empty one, whose rendered code is the empty text, so neither generated
/// procedure refers to the field at all.
pub proof fn lemma_hidden_field_emits_nothing(f: NamedField, m: ArgsModel, mutable: bool)
    requires
        m.hide,
    ensures
        field_directive(f, m, mutable) == DirectiveV::Empty,
        directive_code(field_directive(f, m, mutable)) == Seq::<char>::empty(),
{
}

/// A numeric field barred from editing emits nothing in edit mode — it is
/// treated exactly as a hidden field there, whatever else is configured.
pub proof fn lemma_numeric_no_edit_empty(f: NamedField, m: ArgsModel)
    requires
        !m.hide,
        m.no_edit,
        match path_str_of(f.ty) {
            Some(p) => is_number_path(p),
            None => false,
        },
    ensures
        field_directive(f, m, true) == DirectiveV::Empty,
        directive_code(field_directive(f, m, true)) == Seq::<char>::empty(),
{
}

/// Display-mode output never reads the `no_edit` flag: two configurations
/// that differ in nothing else give the same display directive.
pub proof fn lemma_display_ignores_no_edit(f: NamedField, m1: ArgsModel, m2: ArgsModel)
    requires
        m2 == (ArgsModel { no_edit: m2.no_edit, ..m1 }),
    ensures
        field_directive(f, m1, false) == field_directive(f, m2, false),
{
}

/// A field with a custom edit handler, not barred from editing and not
/// hidden, hands edit mode to exactly that handler — never to the
/// type-based rules, whatever the declared type.
pub proof fn lemma_custom_edit_handler_wins(f: NamedField, m: ArgsModel)
    requires
        !m.hide,
        !m.no_edit,
        m.custom_func_mut is Some,
    ensures
        field_directive(f, m, true) == (DirectiveV::CustomMut {
            func: m.custom_func_mut->0,
            field: f.ident@,
            name: display_name(f, m),
        }),
{
}

/// An editable numeric field with `slider` set emits a bounded range
/// input over exactly the configured interval; with `slider` unset it
/// emits an unbounded input that carries no interval at all.
pub proof fn lemma_numeric_edit_bounds(f: NamedField, m: ArgsModel)
    requires
        !m.hide,
        !m.no_edit,
        m.custom_func_mut is None,
        match path_str_of(f.ty) {
            Some(p) => is_number_path(p),
            None => false,
        },
    ensures
        m.slider ==> field_directive(f, m, true) == (DirectiveV::SliderCall {
            field: f.ident@,
            name: display_name(f, m),
            min: m.min,
            max: m.max,
        }),
        !m.slider ==> field_directive(f, m, true) == (DirectiveV::DragCall {
            field: f.ident@,
            name: display_name(f, m),
        }),
{
}

/// A tuple-style struct with `n` positional fields generates, in both
/// modes, a strong label followed by exactly `n` generic-contract calls;
/// the `i`-th is on `self.<i>`, labeled `"Field <i>"`, mutable exactly in
/// edit mode. Positional fields carry no annotations.
pub proof fn lemma_tuple_fields_generic(n: nat, mutable: bool, i: nat)
    requires
        i < n,
    ensures
        unnamed_body(n, mutable).len() == n + 1,
        unnamed_body(n, mutable)[0] == DirectiveV::StrongLabel,
        unnamed_body(n, mutable)[i as int + 1] == tuple_field_directive(i, mutable),
        tuple_field_directive(i, mutable) == default_call_spec(
            FieldTargetV::Index(i as int),
            "Field "@ + dec_of(i),
            mutable,
        ),
    decreases n,
{
    lemma_unnamed_shape(n, mutable);
    lemma_unnamed_shape((n - 1) as nat, mutable);
    if i + 1 < n {
        lemma_tuple_fields_generic((n - 1) as nat, mutable, i);
    }
}

/// A tuple-style body always holds the strong label and one directive per
/// positional field.
proof fn lemma_unnamed_shape(n: nat, mutable: bool)
    ensures
        unnamed_body(n, mutable).len() == n + 1,
        unnamed_body(n, mutable)[0] == DirectiveV::StrongLabel,
    decreases n,
{
    if n > 0 {
        lemma_unnamed_shape((n - 1) as nat, mutable);
    }
}

/// An enum or union definition is rejected with the dedicated diagnostic
/// in both modes: generation fails rather than producing any output.
pub proof fn lemma_enum_union_rejected(data: Data, mutable: bool)
    requires
        data is Enum || data is Union,
    ensures
        struct_body(data, mutable) == Err::<Seq<DirectiveV>, DiagV>(DiagV::EnumOrUnionUnsupported),
{
}

/// A fixed-size array of length `N` plans, in both modes, one collapsible
/// group whose count is exactly `N` and whose contents are the element
/// plans in order.
pub proof fn lemma_array_group<T: EguiInspect, const N: usize>(a: [T; N], label: Seq<char>)
    ensures
        a@.len() == N,
        a.display_plan(label) == seq![WidgetV::GroupStart { label, count: N as int }]
            + items_display_plan(a@) + seq![WidgetV::GroupEnd],
        a.edit_plan(label) == seq![WidgetV::GroupStart { label, count: N as int }]
            + items_edit_plan(a@) + seq![WidgetV::GroupEnd],
{
}

/// Both container plans recurse into exactly one sub-plan per element:
/// the plan of the first `j + 1` elements extends the plan of the first
/// `j` by the `j`-th element's own plan, labeled `"item"`, whatever the
/// element type.
pub proof fn lemma_container_recurses_per_item<T: EguiInspect>(items: Seq<T>, j: int)
    requires
        0 <= j < items.len(),
    ensures
        items_display_plan(items.subrange(0, j + 1)) == items_display_plan(
            items.subrange(0, j),
        ) + items[j].display_plan("item"@),
        items_edit_plan(items.subrange(0, j + 1)) == items_edit_plan(items.subrange(0, j))
            + items[j].edit_plan("item"@),
{
    lemma_items_display_step(items, j);
    lemma_items_edit_step(items, j);
}

} // verus!
