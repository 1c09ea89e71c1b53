//! The widget plan: the sequence of toolkit primitives that the runtime
//! half of the library asks the GUI toolkit to draw. Rendering itself is
//! the toolkit's job; the library computes the plan.

use vstd::prelude::*;

verus! {

/// One toolkit primitive in a render plan. Numeric values and bounds are
/// carried as their decimal text. A collapsible group is the stretch
/// between its `GroupStart`, which carries the group label and element
/// count, and the matching `GroupEnd`.
#[derive(Debug, PartialEq, Eq)]
pub enum Widget {
    /// A label and the value's text beside it.
    ValueRow { label: String, value: String },
    /// An interactive boolean toggle.
    ToggleLive { label: String, value: bool },
    /// A disabled toggle that only reflects the value.
    ToggleInert { label: String, value: bool },
    /// A numeric input bound to the closed range `[min, max]`.
    RangeInput { label: String, min: String, max: String, value: String },
    /// A free-form, unbounded numeric input.
    NumberInput { label: String, value: String },
    /// A single-row text edit box holding the current text.
    SinglelineEdit { label: String, value: String },
    /// A multi-row text edit box holding the current text.
    MultilineEdit { label: String, value: String },
    /// Text shown with a visual "not editable" indicator.
    InertText { label: String, value: String },
    /// Opens a collapsible group titled with a label and element count.
    GroupStart { label: String, count: usize },
    /// Closes the innermost open group.
    GroupEnd,
    /// A clickable action.
    ActionButton { label: String },
}

/// The spec-level shape of a [`Widget`].
#[verifier::ext_equal]
pub enum WidgetV {
    ValueRow { label: Seq<char>, value: Seq<char> },
    ToggleLive { label: Seq<char>, value: bool },
    ToggleInert { label: Seq<char>, value: bool },
    RangeInput { label: Seq<char>, min: Seq<char>, max: Seq<char>, value: Seq<char> },
    NumberInput { label: Seq<char>, value: Seq<char> },
    SinglelineEdit { label: Seq<char>, value: Seq<char> },
    MultilineEdit { label: Seq<char>, value: Seq<char> },
    InertText { label: Seq<char>, value: Seq<char> },
    GroupStart { label: Seq<char>, count: int },
    GroupEnd,
    ActionButton { label: Seq<char> },
}

impl View for Widget {
    type V = WidgetV;

    open spec fn view(&self) -> WidgetV {
        match self {
            Widget::ValueRow { label, value } => WidgetV::ValueRow {
                label: label@,
                value: value@,
            },
            Widget::ToggleLive { label, value } => WidgetV::ToggleLive {
                label: label@,
                value: *value,
            },
            Widget::ToggleInert { label, value } => WidgetV::ToggleInert {
                label: label@,
                value: *value,
            },
            Widget::RangeInput { label, min, max, value } => WidgetV::RangeInput {
                label: label@,
                min: min@,
                max: max@,
                value: value@,
            },
            Widget::NumberInput { label, value } => WidgetV::NumberInput {
                label: label@,
                value: value@,
            },
            Widget::SinglelineEdit { label, value } => WidgetV::SinglelineEdit {
                label: label@,
                value: value@,
            },
            Widget::MultilineEdit { label, value } => WidgetV::MultilineEdit {
                label: label@,
                value: value@,
            },
            Widget::InertText { label, value } => WidgetV::InertText {
                label: label@,
                value: value@,
            },
            Widget::GroupStart { label, count } => WidgetV::GroupStart {
                label: label@,
                count: *count as int,
            },
            Widget::GroupEnd => WidgetV::GroupEnd,
            Widget::ActionButton { label } => WidgetV::ActionButton { label: label@ },
        }
    }
}

impl DeepView for Widget {
    type V = WidgetV;

    open spec fn deep_view(&self) -> WidgetV {
        self.view()
    }
}

} // verus!
