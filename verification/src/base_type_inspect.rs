//! Default implementations of the two-mode contract for the primitive
//! types, and the container behaviours: collapsible recursion for fixed
//! arrays and growable sequences, and the Add / Pop edit actions on
//! growable sequences.

use vstd::prelude::*;

use crate::EguiInspect;
use crate::InspectNumber;
use crate::InspectString;
use crate::decimal::dec_of_int;
use crate::decimal::i64_dec;
use crate::decimal::u64_dec;
use crate::widget::Widget;
use crate::widget::WidgetV;

verus! {

broadcast use vstd::array::array_len_matches_n;

/// A label-and-value display row.
pub open spec fn plan_row(label: Seq<char>, value: Seq<char>) -> Seq<WidgetV> {
    seq![WidgetV::ValueRow { label, value }]
}

/// An interactive toggle.
pub open spec fn plan_toggle_live(label: Seq<char>, value: bool) -> Seq<WidgetV> {
    seq![WidgetV::ToggleLive { label, value }]
}

/// A disabled toggle that reflects the value.
pub open spec fn plan_toggle_inert(label: Seq<char>, value: bool) -> Seq<WidgetV> {
    seq![WidgetV::ToggleInert { label, value }]
}

/// A numeric input bound to `[min, max]`.
pub open spec fn plan_range(
    label: Seq<char>,
    min: Seq<char>,
    max: Seq<char>,
    value: Seq<char>,
) -> Seq<WidgetV> {
    seq![WidgetV::RangeInput { label, min, max, value }]
}

/// An unbounded numeric input.
pub open spec fn plan_number(label: Seq<char>, value: Seq<char>) -> Seq<WidgetV> {
    seq![WidgetV::NumberInput { label, value }]
}

/// A single-row text edit box.
pub open spec fn plan_single_edit(label: Seq<char>, value: Seq<char>) -> Seq<WidgetV> {
    seq![WidgetV::SinglelineEdit { label, value }]
}

/// A multi-row text edit box.
pub open spec fn plan_multi_edit(label: Seq<char>, value: Seq<char>) -> Seq<WidgetV> {
    seq![WidgetV::MultilineEdit { label, value }]
}

/// Text with a "not editable" indicator.
pub open spec fn plan_inert_text(label: Seq<char>, value: Seq<char>) -> Seq<WidgetV> {
    seq![WidgetV::InertText { label, value }]
}

/// Builds the one-widget plan of a display row.
fn row_widgets(label: &str, value: String) -> (out: Vec<Widget>)
    ensures
        out.deep_view() == plan_row(label@, value@),
{
    let ghost v0 = value@;
    let mut out: Vec<Widget> = Vec::new();
    out.push(Widget::ValueRow { label: String::from_str(label), value });
    proof {
        assert(out.deep_view() =~= plan_row(label@, v0));
    }
    out
}

/// Builds the one-widget plan of a range input.
fn range_widgets(label: &str, min: &str, max: &str, value: String) -> (out: Vec<Widget>)
    ensures
        out.deep_view() == plan_range(label@, min@, max@, value@),
{
    let ghost v0 = value@;
    let mut out: Vec<Widget> = Vec::new();
    out.push(
        Widget::RangeInput {
            label: String::from_str(label),
            min: String::from_str(min),
            max: String::from_str(max),
            value,
        },
    );
    proof {
        assert(out.deep_view() =~= plan_range(label@, min@, max@, v0));
    }
    out
}

/// Builds the one-widget plan of an unbounded numeric input.
fn number_widgets(label: &str, value: String) -> (out: Vec<Widget>)
    ensures
        out.deep_view() == plan_number(label@, value@),
{
    let ghost v0 = value@;
    let mut out: Vec<Widget> = Vec::new();
    out.push(Widget::NumberInput { label: String::from_str(label), value });
    proof {
        assert(out.deep_view() =~= plan_number(label@, v0));
    }
    out
}

impl InspectNumber for u8 {
    open spec fn slider_plan(&self, label: Seq<char>, min: Seq<char>, max: Seq<char>) -> Seq<
        WidgetV,
    > {
        plan_range(label, min, max, dec_of_int(*self as int))
    }

    open spec fn drag_plan(&self, label: Seq<char>) -> Seq<WidgetV> {
        plan_number(label, dec_of_int(*self as int))
    }

    fn inspect_with_slider(&self, label: &str, min: &str, max: &str) -> (out: Vec<Widget>) {
        range_widgets(label, min, max, u64_dec(*self as u64))
    }

    fn inspect_with_drag_value(&self, label: &str) -> (out: Vec<Widget>) {
        number_widgets(label, u64_dec(*self as u64))
    }
}

impl EguiInspect for u8 {
    open spec fn display_plan(&self, label: Seq<char>) -> Seq<WidgetV> {
        plan_row(label, dec_of_int(*self as int))
    }

    open spec fn edit_plan(&self, label: Seq<char>) -> Seq<WidgetV> {
        self.slider_plan(label, "0.0"@, "100.0"@)
    }

    fn inspect(&self, label: &str) -> (out: Vec<Widget>) {
        row_widgets(label, u64_dec(*self as u64))
    }

    fn inspect_mut(&self, label: &str) -> (out: Vec<Widget>) {
        self.inspect_with_slider(label, "0.0", "100.0")
    }
}

impl InspectNumber for i8 {
    open spec fn slider_plan(&self, label: Seq<char>, min: Seq<char>, max: Seq<char>) -> Seq<
        WidgetV,
    > {
        plan_range(label, min, max, dec_of_int(*self as int))
    }

    open spec fn drag_plan(&self, label: Seq<char>) -> Seq<WidgetV> {
        plan_number(label, dec_of_int(*self as int))
    }

    fn inspect_with_slider(&self, label: &str, min: &str, max: &str) -> (out: Vec<Widget>) {
        range_widgets(label, min, max, i64_dec(*self as i64))
    }

    fn inspect_with_drag_value(&self, label: &str) -> (out: Vec<Widget>) {
        number_widgets(label, i64_dec(*self as i64))
    }
}

impl EguiInspect for i8 {
    open spec fn display_plan(&self, label: Seq<char>) -> Seq<WidgetV> {
        plan_row(label, dec_of_int(*self as int))
    }

    open spec fn edit_plan(&self, label: Seq<char>) -> Seq<WidgetV> {
        self.slider_plan(label, "0.0"@, "100.0"@)
    }

    fn inspect(&self, label: &str) -> (out: Vec<Widget>) {
        row_widgets(label, i64_dec(*self as i64))
    }

    fn inspect_mut(&self, label: &str) -> (out: Vec<Widget>) {
        self.inspect_with_slider(label, "0.0", "100.0")
    }
}

impl InspectNumber for u16 {
    open spec fn slider_plan(&self, label: Seq<char>, min: Seq<char>, max: Seq<char>) -> Seq<
        WidgetV,
    > {
        plan_range(label, min, max, dec_of_int(*self as int))
    }

    open spec fn drag_plan(&self, label: Seq<char>) -> Seq<WidgetV> {
        plan_number(label, dec_of_int(*self as int))
    }

    fn inspect_with_slider(&self, label: &str, min: &str, max: &str) -> (out: Vec<Widget>) {
        range_widgets(label, min, max, u64_dec(*self as u64))
    }

    fn inspect_with_drag_value(&self, label: &str) -> (out: Vec<Widget>) {
        number_widgets(label, u64_dec(*self as u64))
    }
}

impl EguiInspect for u16 {
    open spec fn display_plan(&self, label: Seq<char>) -> Seq<WidgetV> {
        plan_row(label, dec_of_int(*self as int))
    }

    open spec fn edit_plan(&self, label: Seq<char>) -> Seq<WidgetV> {
        self.slider_plan(label, "0.0"@, "100.0"@)
    }

    fn inspect(&self, label: &str) -> (out: Vec<Widget>) {
        row_widgets(label, u64_dec(*self as u64))
    }

    fn inspect_mut(&self, label: &str) -> (out: Vec<Widget>) {
        self.inspect_with_slider(label, "0.0", "100.0")
    }
}

impl InspectNumber for i16 {
    open spec fn slider_plan(&self, label: Seq<char>, min: Seq<char>, max: Seq<char>) -> Seq<
        WidgetV,
    > {
        plan_range(label, min, max, dec_of_int(*self as int))
    }

    open spec fn drag_plan(&self, label: Seq<char>) -> Seq<WidgetV> {
        plan_number(label, dec_of_int(*self as int))
    }

    fn inspect_with_slider(&self, label: &str, min: &str, max: &str) -> (out: Vec<Widget>) {
        range_widgets(label, min, max, i64_dec(*self as i64))
    }

    fn inspect_with_drag_value(&self, label: &str) -> (out: Vec<Widget>) {
        number_widgets(label, i64_dec(*self as i64))
    }
}

impl EguiInspect for i16 {
    open spec fn display_plan(&self, label: Seq<char>) -> Seq<WidgetV> {
        plan_row(label, dec_of_int(*self as int))
    }

    open spec fn edit_plan(&self, label: Seq<char>) -> Seq<WidgetV> {
        self.slider_plan(label, "0.0"@, "100.0"@)
    }

    fn inspect(&self, label: &str) -> (out: Vec<Widget>) {
        row_widgets(label, i64_dec(*self as i64))
    }

    fn inspect_mut(&self, label: &str) -> (out: Vec<Widget>) {
        self.inspect_with_slider(label, "0.0", "100.0")
    }
}

impl InspectNumber for u32 {
    open spec fn slider_plan(&self, label: Seq<char>, min: Seq<char>, max: Seq<char>) -> Seq<
        WidgetV,
    > {
        plan_range(label, min, max, dec_of_int(*self as int))
    }

    open spec fn drag_plan(&self, label: Seq<char>) -> Seq<WidgetV> {
        plan_number(label, dec_of_int(*self as int))
    }

    fn inspect_with_slider(&self, label: &str, min: &str, max: &str) -> (out: Vec<Widget>) {
        range_widgets(label, min, max, u64_dec(*self as u64))
    }

    fn inspect_with_drag_value(&self, label: &str) -> (out: Vec<Widget>) {
        number_widgets(label, u64_dec(*self as u64))
    }
}

impl EguiInspect for u32 {
    open spec fn display_plan(&self, label: Seq<char>) -> Seq<WidgetV> {
        plan_row(label, dec_of_int(*self as int))
    }

    open spec fn edit_plan(&self, label: Seq<char>) -> Seq<WidgetV> {
        self.slider_plan(label, "0.0"@, "100.0"@)
    }

    fn inspect(&self, label: &str) -> (out: Vec<Widget>) {
        row_widgets(label, u64_dec(*self as u64))
    }

    fn inspect_mut(&self, label: &str) -> (out: Vec<Widget>) {
        self.inspect_with_slider(label, "0.0", "100.0")
    }
}

impl InspectNumber for i32 {
    open spec fn slider_plan(&self, label: Seq<char>, min: Seq<char>, max: Seq<char>) -> Seq<
        WidgetV,
    > {
        plan_range(label, min, max, dec_of_int(*self as int))
    }

    open spec fn drag_plan(&self, label: Seq<char>) -> Seq<WidgetV> {
        plan_number(label, dec_of_int(*self as int))
    }

    fn inspect_with_slider(&self, label: &str, min: &str, max: &str) -> (out: Vec<Widget>) {
        range_widgets(label, min, max, i64_dec(*self as i64))
    }

    fn inspect_with_drag_value(&self, label: &str) -> (out: Vec<Widget>) {
        number_widgets(label, i64_dec(*self as i64))
    }
}

impl EguiInspect for i32 {
    open spec fn display_plan(&self, label: Seq<char>) -> Seq<WidgetV> {
        plan_row(label, dec_of_int(*self as int))
    }

    open spec fn edit_plan(&self, label: Seq<char>) -> Seq<WidgetV> {
        self.slider_plan(label, "0.0"@, "100.0"@)
    }

    fn inspect(&self, label: &str) -> (out: Vec<Widget>) {
        row_widgets(label, i64_dec(*self as i64))
    }

    fn inspect_mut(&self, label: &str) -> (out: Vec<Widget>) {
        self.inspect_with_slider(label, "0.0", "100.0")
    }
}

impl InspectNumber for u64 {
    open spec fn slider_plan(&self, label: Seq<char>, min: Seq<char>, max: Seq<char>) -> Seq<
        WidgetV,
    > {
        plan_range(label, min, max, dec_of_int(*self as int))
    }

    open spec fn drag_plan(&self, label: Seq<char>) -> Seq<WidgetV> {
        plan_number(label, dec_of_int(*self as int))
    }

    fn inspect_with_slider(&self, label: &str, min: &str, max: &str) -> (out: Vec<Widget>) {
        range_widgets(label, min, max, u64_dec(*self as u64))
    }

    fn inspect_with_drag_value(&self, label: &str) -> (out: Vec<Widget>) {
        number_widgets(label, u64_dec(*self as u64))
    }
}

impl EguiInspect for u64 {
    open spec fn display_plan(&self, label: Seq<char>) -> Seq<WidgetV> {
        plan_row(label, dec_of_int(*self as int))
    }

    open spec fn edit_plan(&self, label: Seq<char>) -> Seq<WidgetV> {
        self.slider_plan(label, "0.0"@, "100.0"@)
    }

    fn inspect(&self, label: &str) -> (out: Vec<Widget>) {
        row_widgets(label, u64_dec(*self as u64))
    }

    fn inspect_mut(&self, label: &str) -> (out: Vec<Widget>) {
        self.inspect_with_slider(label, "0.0", "100.0")
    }
}

impl InspectNumber for i64 {
    open spec fn slider_plan(&self, label: Seq<char>, min: Seq<char>, max: Seq<char>) -> Seq<
        WidgetV,
    > {
        plan_range(label, min, max, dec_of_int(*self as int))
    }

    open spec fn drag_plan(&self, label: Seq<char>) -> Seq<WidgetV> {
        plan_number(label, dec_of_int(*self as int))
    }

    fn inspect_with_slider(&self, label: &str, min: &str, max: &str) -> (out: Vec<Widget>) {
        range_widgets(label, min, max, i64_dec(*self as i64))
    }

    fn inspect_with_drag_value(&self, label: &str) -> (out: Vec<Widget>) {
        number_widgets(label, i64_dec(*self as i64))
    }
}

impl EguiInspect for i64 {
    open spec fn display_plan(&self, label: Seq<char>) -> Seq<WidgetV> {
        plan_row(label, dec_of_int(*self as int))
    }

    open spec fn edit_plan(&self, label: Seq<char>) -> Seq<WidgetV> {
        self.slider_plan(label, "0.0"@, "100.0"@)
    }

    fn inspect(&self, label: &str) -> (out: Vec<Widget>) {
        row_widgets(label, i64_dec(*self as i64))
    }

    fn inspect_mut(&self, label: &str) -> (out: Vec<Widget>) {
        self.inspect_with_slider(label, "0.0", "100.0")
    }
}

impl InspectNumber for usize {
    open spec fn slider_plan(&self, label: Seq<char>, min: Seq<char>, max: Seq<char>) -> Seq<
        WidgetV,
    > {
        plan_range(label, min, max, dec_of_int(*self as int))
    }

    open spec fn drag_plan(&self, label: Seq<char>) -> Seq<WidgetV> {
        plan_number(label, dec_of_int(*self as int))
    }

    fn inspect_with_slider(&self, label: &str, min: &str, max: &str) -> (out: Vec<Widget>) {
        range_widgets(label, min, max, u64_dec(*self as u64))
    }

    fn inspect_with_drag_value(&self, label: &str) -> (out: Vec<Widget>) {
        number_widgets(label, u64_dec(*self as u64))
    }
}

impl EguiInspect for usize {
    open spec fn display_plan(&self, label: Seq<char>) -> Seq<WidgetV> {
        plan_row(label, dec_of_int(*self as int))
    }

    open spec fn edit_plan(&self, label: Seq<char>) -> Seq<WidgetV> {
        self.slider_plan(label, "0.0"@, "100.0"@)
    }

    fn inspect(&self, label: &str) -> (out: Vec<Widget>) {
        row_widgets(label, u64_dec(*self as u64))
    }

    fn inspect_mut(&self, label: &str) -> (out: Vec<Widget>) {
        self.inspect_with_slider(label, "0.0", "100.0")
    }
}

impl InspectNumber for isize {
    open spec fn slider_plan(&self, label: Seq<char>, min: Seq<char>, max: Seq<char>) -> Seq<
        WidgetV,
    > {
        plan_range(label, min, max, dec_of_int(*self as int))
    }

    open spec fn drag_plan(&self, label: Seq<char>) -> Seq<WidgetV> {
        plan_number(label, dec_of_int(*self as int))
    }

    fn inspect_with_slider(&self, label: &str, min: &str, max: &str) -> (out: Vec<Widget>) {
        range_widgets(label, min, max, i64_dec(*self as i64))
    }

    fn inspect_with_drag_value(&self, label: &str) -> (out: Vec<Widget>) {
        number_widgets(label, i64_dec(*self as i64))
    }
}

impl EguiInspect for isize {
    open spec fn display_plan(&self, label: Seq<char>) -> Seq<WidgetV> {
        plan_row(label, dec_of_int(*self as int))
    }

    open spec fn edit_plan(&self, label: Seq<char>) -> Seq<WidgetV> {
        self.slider_plan(label, "0.0"@, "100.0"@)
    }

    fn inspect(&self, label: &str) -> (out: Vec<Widget>) {
        row_widgets(label, i64_dec(*self as i64))
    }

    fn inspect_mut(&self, label: &str) -> (out: Vec<Widget>) {
        self.inspect_with_slider(label, "0.0", "100.0")
    }
}


/// Builds the one-widget plan of an interactive toggle.
fn toggle_live_widgets(label: &str, value: bool) -> (out: Vec<Widget>)
    ensures
        out.deep_view() == plan_toggle_live(label@, value),
{
    let mut out: Vec<Widget> = Vec::new();
    out.push(Widget::ToggleLive { label: String::from_str(label), value });
    proof {
        assert(out.deep_view() =~= plan_toggle_live(label@, value));
    }
    out
}

/// Builds the one-widget plan of a disabled toggle.
fn toggle_inert_widgets(label: &str, value: bool) -> (out: Vec<Widget>)
    ensures
        out.deep_view() == plan_toggle_inert(label@, value),
{
    let mut out: Vec<Widget> = Vec::new();
    out.push(Widget::ToggleInert { label: String::from_str(label), value });
    proof {
        assert(out.deep_view() =~= plan_toggle_inert(label@, value));
    }
    out
}

/// Builds the one-widget plan of a single-row edit box.
fn single_edit_widgets(label: &str, value: String) -> (out: Vec<Widget>)
    ensures
        out.deep_view() == plan_single_edit(label@, value@),
{
    let ghost v0 = value@;
    let mut out: Vec<Widget> = Vec::new();
    out.push(Widget::SinglelineEdit { label: String::from_str(label), value });
    proof {
        assert(out.deep_view() =~= plan_single_edit(label@, v0));
    }
    out
}

/// Builds the one-widget plan of a multi-row edit box.
fn multi_edit_widgets(label: &str, value: String) -> (out: Vec<Widget>)
    ensures
        out.deep_view() == plan_multi_edit(label@, value@),
{
    let ghost v0 = value@;
    let mut out: Vec<Widget> = Vec::new();
    out.push(Widget::MultilineEdit { label: String::from_str(label), value });
    proof {
        assert(out.deep_view() =~= plan_multi_edit(label@, v0));
    }
    out
}

/// Builds the one-widget plan of inert text.
fn inert_text_widgets(label: &str, value: String) -> (out: Vec<Widget>)
    ensures
        out.deep_view() == plan_inert_text(label@, value@),
{
    let ghost v0 = value@;
    let mut out: Vec<Widget> = Vec::new();
    out.push(Widget::InertText { label: String::from_str(label), value });
    proof {
        assert(out.deep_view() =~= plan_inert_text(label@, v0));
    }
    out
}

impl EguiInspect for bool {
    open spec fn display_plan(&self, label: Seq<char>) -> Seq<WidgetV> {
        plan_toggle_inert(label, *self)
    }

    open spec fn edit_plan(&self, label: Seq<char>) -> Seq<WidgetV> {
        plan_toggle_live(label, *self)
    }

    fn inspect(&self, label: &str) -> (out: Vec<Widget>) {
        toggle_inert_widgets(label, *self)
    }

    fn inspect_mut(&self, label: &str) -> (out: Vec<Widget>) {
        toggle_live_widgets(label, *self)
    }
}

impl InspectString for String {
    open spec fn multiline_plan(&self, label: Seq<char>) -> Seq<WidgetV> {
        plan_multi_edit(label, self@)
    }

    open spec fn singleline_plan(&self, label: Seq<char>) -> Seq<WidgetV> {
        plan_single_edit(label, self@)
    }

    fn inspect_mut_multiline(&self, label: &str) -> (out: Vec<Widget>) {
        multi_edit_widgets(label, self.clone())
    }

    fn inspect_mut_singleline(&self, label: &str) -> (out: Vec<Widget>) {
        single_edit_widgets(label, self.clone())
    }
}

impl EguiInspect for String {
    open spec fn display_plan(&self, label: Seq<char>) -> Seq<WidgetV> {
        plan_row(label, self@)
    }

    open spec fn edit_plan(&self, label: Seq<char>) -> Seq<WidgetV> {
        self.singleline_plan(label)
    }

    fn inspect(&self, label: &str) -> (out: Vec<Widget>) {
        row_widgets(label, self.clone())
    }

    fn inspect_mut(&self, label: &str) -> (out: Vec<Widget>) {
        self.inspect_mut_singleline(label)
    }
}

impl EguiInspect for &'static str {
    open spec fn display_plan(&self, label: Seq<char>) -> Seq<WidgetV> {
        plan_row(label, self@)
    }

    /// Editing is unsupported for borrowed text: the plan shows the value
    /// with a "not editable" indicator instead of mutating anything.
    open spec fn edit_plan(&self, label: Seq<char>) -> Seq<WidgetV> {
        plan_inert_text(label, self@)
    }

    fn inspect(&self, label: &str) -> (out: Vec<Widget>) {
        row_widgets(label, String::from_str(self))
    }

    fn inspect_mut(&self, label: &str) -> (out: Vec<Widget>) {
        inert_text_widgets(label, String::from_str(self))
    }
}

/// The concatenated display plans of a container's elements, each labeled
/// `"item"`, in order.
pub open spec fn items_display_plan<T: EguiInspect>(items: Seq<T>) -> Seq<WidgetV>
    decreases items.len(),
{
    if items.len() == 0 {
        Seq::empty()
    } else {
        items_display_plan(items.drop_last()) + items.last().display_plan("item"@)
    }
}

/// The concatenated edit plans of a container's elements, each labeled
/// `"item"`, in order.
pub open spec fn items_edit_plan<T: EguiInspect>(items: Seq<T>) -> Seq<WidgetV>
    decreases items.len(),
{
    if items.len() == 0 {
        Seq::empty()
    } else {
        items_edit_plan(items.drop_last()) + items.last().edit_plan("item"@)
    }
}

/// Unfolds [`items_display_plan`] by one element of a prefix.
pub proof fn lemma_items_display_step<T: EguiInspect>(items: Seq<T>, i: int)
    requires
        0 <= i < items.len(),
    ensures
        items_display_plan(items.subrange(0, i + 1)) == items_display_plan(items.subrange(0, i))
            + items[i].display_plan("item"@),
{
    assert(items.subrange(0, i + 1).drop_last() =~= items.subrange(0, i));
    assert(items.subrange(0, i + 1).last() == items[i]);
}

/// Unfolds [`items_edit_plan`] by one element of a prefix.
pub proof fn lemma_items_edit_step<T: EguiInspect>(items: Seq<T>, i: int)
    requires
        0 <= i < items.len(),
    ensures
        items_edit_plan(items.subrange(0, i + 1)) == items_edit_plan(items.subrange(0, i))
            + items[i].edit_plan("item"@),
{
    assert(items.subrange(0, i + 1).drop_last() =~= items.subrange(0, i));
    assert(items.subrange(0, i + 1).last() == items[i]);
}

impl<T: EguiInspect> EguiInspect for Vec<T> {
    /// A collapsible group carrying the label and current length, with
    /// every element's display plan inside, each labeled `"item"`.
    open spec fn display_plan(&self, label: Seq<char>) -> Seq<WidgetV> {
        seq![WidgetV::GroupStart { label, count: self@.len() as int }] + items_display_plan(self@)
            + seq![WidgetV::GroupEnd]
    }

    /// The collapsible recursive group, plus the "Add" and "Pop" actions
    /// whose events [`apply_list_edits`] carries into the sequence.
    open spec fn edit_plan(&self, label: Seq<char>) -> Seq<WidgetV> {
        seq![WidgetV::GroupStart { label, count: self@.len() as int }] + items_edit_plan(self@)
            + seq![WidgetV::GroupEnd] + seq![
            WidgetV::ActionButton { label: "Add"@ },
            WidgetV::ActionButton { label: "Pop"@ },
        ]
    }

    fn inspect(&self, label: &str) -> (out: Vec<Widget>) {
        let ghost gs = WidgetV::GroupStart { label: label@, count: self@.len() as int };
        let mut out: Vec<Widget> = Vec::new();
        out.push(Widget::GroupStart { label: String::from_str(label), count: self.len() });
        proof {
            assert(out.deep_view() =~= seq![gs]);
        }
        let mut i: usize = 0;
        while i < self.len()
            invariant
                i <= self@.len(),
                gs == (WidgetV::GroupStart { label: label@, count: self@.len() as int }),
                out.deep_view() == seq![gs] + items_display_plan(self@.subrange(0, i as int)),
            decreases self@.len() - i,
        {
            let mut sub = self[i].inspect("item");
            let ghost sub0 = sub.deep_view();
            let ghost out0 = out.deep_view();
            out.append(&mut sub);
            proof {
                assert(out.deep_view() =~= out0 + sub0);
                lemma_items_display_step(self@, i as int);
                assert(out.deep_view() =~= seq![gs] + items_display_plan(
                    self@.subrange(0, i as int + 1),
                ));
            }
            i = i + 1;
        }
        let ghost out1 = out.deep_view();
        out.push(Widget::GroupEnd);
        proof {
            assert(self@.subrange(0, self@.len() as int) =~= self@);
            assert(out.deep_view() =~= out1.push(WidgetV::GroupEnd));
            assert(out.deep_view() =~= self.display_plan(label@));
        }
        out
    }

    fn inspect_mut(&self, label: &str) -> (out: Vec<Widget>) {
        let ghost gs = WidgetV::GroupStart { label: label@, count: self@.len() as int };
        let mut out: Vec<Widget> = Vec::new();
        out.push(Widget::GroupStart { label: String::from_str(label), count: self.len() });
        proof {
            assert(out.deep_view() =~= seq![gs]);
        }
        let mut i: usize = 0;
        while i < self.len()
            invariant
                i <= self@.len(),
                gs == (WidgetV::GroupStart { label: label@, count: self@.len() as int }),
                out.deep_view() == seq![gs] + items_edit_plan(self@.subrange(0, i as int)),
            decreases self@.len() - i,
        {
            let mut sub = self[i].inspect_mut("item");
            let ghost sub0 = sub.deep_view();
            let ghost out0 = out.deep_view();
            out.append(&mut sub);
            proof {
                assert(out.deep_view() =~= out0 + sub0);
                lemma_items_edit_step(self@, i as int);
                assert(out.deep_view() =~= seq![gs] + items_edit_plan(
                    self@.subrange(0, i as int + 1),
                ));
            }
            i = i + 1;
        }
        let ghost out1 = out.deep_view();
        out.push(Widget::GroupEnd);
        out.push(Widget::ActionButton { label: String::from_str("Add") });
        out.push(Widget::ActionButton { label: String::from_str("Pop") });
        proof {
            assert(self@.subrange(0, self@.len() as int) =~= self@);
            assert(out.deep_view() =~= out1.push(WidgetV::GroupEnd).push(
                WidgetV::ActionButton { label: "Add"@ },
            ).push(WidgetV::ActionButton { label: "Pop"@ }));
            assert(out.deep_view() =~= self.edit_plan(label@));
        }
        out
    }
}

impl<T: EguiInspect, const N: usize> EguiInspect for [T; N] {
    /// A collapsible group carrying the label and the fixed element count,
    /// with every element's display plan inside, each labeled `"item"`.
    open spec fn display_plan(&self, label: Seq<char>) -> Seq<WidgetV> {
        seq![WidgetV::GroupStart { label, count: N as int }] + items_display_plan(self@) + seq![
            WidgetV::GroupEnd,
        ]
    }

    /// The same group, recursing into each element's edit plan.
    open spec fn edit_plan(&self, label: Seq<char>) -> Seq<WidgetV> {
        seq![WidgetV::GroupStart { label, count: N as int }] + items_edit_plan(self@) + seq![
            WidgetV::GroupEnd,
        ]
    }

    fn inspect(&self, label: &str) -> (out: Vec<Widget>) {
        let ghost gs = WidgetV::GroupStart { label: label@, count: N as int };
        let mut out: Vec<Widget> = Vec::new();
        out.push(Widget::GroupStart { label: String::from_str(label), count: N });
        proof {
            assert(out.deep_view() =~= seq![gs]);
        }
        let mut i: usize = 0;
        while i < N
            invariant
                i <= N,
                self@.len() == N,
                gs == (WidgetV::GroupStart { label: label@, count: N as int }),
                out.deep_view() == seq![gs] + items_display_plan(self@.subrange(0, i as int)),
            decreases N - i,
        {
            let item = vstd::array::array_index_get(self, i);
            let mut sub = item.inspect("item");
            let ghost sub0 = sub.deep_view();
            let ghost out0 = out.deep_view();
            out.append(&mut sub);
            proof {
                assert(out.deep_view() =~= out0 + sub0);
                lemma_items_display_step(self@, i as int);
                assert(out.deep_view() =~= seq![gs] + items_display_plan(
                    self@.subrange(0, i as int + 1),
                ));
            }
            i = i + 1;
        }
        let ghost out1 = out.deep_view();
        out.push(Widget::GroupEnd);
        proof {
            assert(self@.subrange(0, self@.len() as int) =~= self@);
            assert(out.deep_view() =~= out1.push(WidgetV::GroupEnd));
            assert(out.deep_view() =~= self.display_plan(label@));
        }
        out
    }

    fn inspect_mut(&self, label: &str) -> (out: Vec<Widget>) {
        let ghost gs = WidgetV::GroupStart { label: label@, count: N as int };
        let mut out: Vec<Widget> = Vec::new();
        out.push(Widget::GroupStart { label: String::from_str(label), count: N });
        proof {
            assert(out.deep_view() =~= seq![gs]);
        }
        let mut i: usize = 0;
        while i < N
            invariant
                i <= N,
                self@.len() == N,
                gs == (WidgetV::GroupStart { label: label@, count: N as int }),
                out.deep_view() == seq![gs] + items_edit_plan(self@.subrange(0, i as int)),
            decreases N - i,
        {
            let item = vstd::array::array_index_get(self, i);
            let mut sub = item.inspect_mut("item");
            let ghost sub0 = sub.deep_view();
            let ghost out0 = out.deep_view();
            out.append(&mut sub);
            proof {
                assert(out.deep_view() =~= out0 + sub0);
                lemma_items_edit_step(self@, i as int);
                assert(out.deep_view() =~= seq![gs] + items_edit_plan(
                    self@.subrange(0, i as int + 1),
                ));
            }
            i = i + 1;
        }
        let ghost out1 = out.deep_view();
        out.push(Widget::GroupEnd);
        proof {
            assert(self@.subrange(0, self@.len() as int) =~= self@);
            assert(out.deep_view() =~= out1.push(WidgetV::GroupEnd));
            assert(out.deep_view() =~= self.edit_plan(label@));
        }
        out
    }
}

/// A type whose values can be default-constructed, so that a growable
/// sequence of them supports the "Add" action.
pub trait DefaultsConstructible: Sized {
    /// Whether a value is the one default construction gives.
    spec fn is_default(&self) -> bool;

    /// Builds the default value.
    fn make_default() -> (r: Self)
        ensures
            r.is_default(),
    ;
}

impl DefaultsConstructible for u8 {
    open spec fn is_default(&self) -> bool {
        *self == 0
    }

    fn make_default() -> (r: Self) {
        0
    }
}

impl DefaultsConstructible for i8 {
    open spec fn is_default(&self) -> bool {
        *self == 0
    }

    fn make_default() -> (r: Self) {
        0
    }
}

impl DefaultsConstructible for u16 {
    open spec fn is_default(&self) -> bool {
        *self == 0
    }

    fn make_default() -> (r: Self) {
        0
    }
}

impl DefaultsConstructible for i16 {
    open spec fn is_default(&self) -> bool {
        *self == 0
    }

    fn make_default() -> (r: Self) {
        0
    }
}

impl DefaultsConstructible for u32 {
    open spec fn is_default(&self) -> bool {
        *self == 0
    }

    fn make_default() -> (r: Self) {
        0
    }
}

impl DefaultsConstructible for i32 {
    open spec fn is_default(&self) -> bool {
        *self == 0
    }

    fn make_default() -> (r: Self) {
        0
    }
}

impl DefaultsConstructible for u64 {
    open spec fn is_default(&self) -> bool {
        *self == 0
    }

    fn make_default() -> (r: Self) {
        0
    }
}

impl DefaultsConstructible for i64 {
    open spec fn is_default(&self) -> bool {
        *self == 0
    }

    fn make_default() -> (r: Self) {
        0
    }
}

impl DefaultsConstructible for usize {
    open spec fn is_default(&self) -> bool {
        *self == 0
    }

    fn make_default() -> (r: Self) {
        0
    }
}

impl DefaultsConstructible for isize {
    open spec fn is_default(&self) -> bool {
        *self == 0
    }

    fn make_default() -> (r: Self) {
        0
    }
}

impl DefaultsConstructible for bool {
    open spec fn is_default(&self) -> bool {
        *self == false
    }

    fn make_default() -> (r: Self) {
        false
    }
}

impl DefaultsConstructible for String {
    open spec fn is_default(&self) -> bool {
        self@ == Seq::<char>::empty()
    }

    fn make_default() -> (r: Self) {
        String::new()
    }
}

impl<T> DefaultsConstructible for Vec<T> {
    open spec fn is_default(&self) -> bool {
        self@ == Seq::<T>::empty()
    }

    fn make_default() -> (r: Self) {
        let out: Vec<T> = Vec::new();
        out
    }
}

/// Carries an interactive toggle's interaction into the value: an
/// activated toggle flips it, and a toggle left alone leaves it as it
/// was.
pub fn apply_toggle(b: &mut bool, activated: bool)
    ensures
        activated ==> *final(b) == !*old(b),
        !activated ==> *final(b) == *old(b),
{
    if activated {
        *b = !*b;
    }
}

/// Carries the two edit-mode actions of a growable sequence into the
/// value: "Add" appends one default-constructed element at the end, and
/// "Pop" removes the last element of a non-empty sequence and leaves an
/// empty one alone. Both actions together cancel out.
pub fn apply_list_edits<T: DefaultsConstructible>(
    v: &mut Vec<T>,
    add_clicked: bool,
    pop_clicked: bool,
)
    ensures
        add_clicked && !pop_clicked ==> final(v)@.len() == old(v)@.len() + 1,
        add_clicked && !pop_clicked ==> final(v)@.drop_last() == old(v)@,
        add_clicked && !pop_clicked ==> final(v)@.last().is_default(),
        !add_clicked && pop_clicked && old(v)@.len() > 0 ==> final(v)@ == old(v)@.drop_last(),
        !add_clicked && pop_clicked && old(v)@.len() == 0 ==> final(v)@ == old(v)@,
        add_clicked && pop_clicked ==> final(v)@ == old(v)@,
        !add_clicked && !pop_clicked ==> final(v)@ == old(v)@,
{
    let ghost v0 = v@;
    if add_clicked {
        v.push(T::make_default());
    }
    if pop_clicked {
        let _ = v.pop();
    }
    proof {
        if add_clicked && !pop_clicked {
            assert(v@.drop_last() =~= v0);
        }
        if add_clicked && pop_clicked {
            assert(v@ =~= v0);
        }
    }
}

} // verus!
