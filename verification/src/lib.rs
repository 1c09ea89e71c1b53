//! Boilerplate generation policy for two-mode (display / edit) inspection of
//! a structured type's fields through a retained-mode GUI toolkit.
//!
//! The crate has three parts:
//!
//! - an attribute resolver ([`attrs`]) that turns a field's raw annotations
//!   into a resolved configuration record, applying documented defaults;
//! - a dispatch and code-generation engine ([`engine`], [`internal_paths`],
//!   [`utils`], [`directive`]) that, for each visible field and each of the
//!   two modes, chooses exactly one generation directive and renders it as
//!   code;
//! - a primitive widget library ([`base_type_inspect`], [`widget`]) giving
//!   the default two-mode behaviour of numbers, booleans, text and
//!   containers as a plan of toolkit widgets, plus the edit actions on
//!   growable sequences.
//!
//! Rendering a plan on a real surface, and reading a real type definition
//! into the [`model`] types, are the toolkit-facing callers' work; the
//! library computes plans, directives and generated code from plain values.

use vstd::prelude::*;

pub mod attrs;
pub mod base_type_inspect;
pub mod decimal;
pub mod directive;
pub mod engine;
pub mod internal_paths;
pub mod laws;
pub mod model;
pub mod utils;
pub mod widget;

pub use crate::attrs::AttributeArgs;
pub use crate::engine::derive_egui_inspect;
pub use crate::engine::inspect_struct;
pub use crate::internal_paths::path_is_internally_handled;
pub use crate::model::DeriveInput;
pub use crate::model::Diag;
pub use crate::utils::get_path_str;
pub use crate::widget::Widget;

use crate::widget::WidgetV;

verus! {

/// The two-mode contract: any type that can plan its own read-only display
/// and its own editing surface. Planning is pure — the plan says what the
/// toolkit should draw, and edit interactions come back as events that the
/// `apply` functions of [`base_type_inspect`] carry into the value.
pub trait EguiInspect {
    /// The display-mode plan of this value under a label.
    spec fn display_plan(&self, label: Seq<char>) -> Seq<WidgetV>;

    /// The edit-mode plan of this value under a label.
    spec fn edit_plan(&self, label: Seq<char>) -> Seq<WidgetV>;

    /// Plans the read-only rendering of this value.
    fn inspect(&self, label: &str) -> (out: Vec<Widget>)
        ensures
            out.deep_view() == self.display_plan(label@),
    ;

    /// Plans the editing rendering of this value.
    fn inspect_mut(&self, label: &str) -> (out: Vec<Widget>)
        ensures
            out.deep_view() == self.edit_plan(label@),
    ;
}

/// The two extra numeric strategies that generated code calls directly:
/// a bounded range input and an unbounded free-form input.
pub trait InspectNumber {
    /// The plan of a range input bound to `[min, max]`.
    spec fn slider_plan(&self, label: Seq<char>, min: Seq<char>, max: Seq<char>) -> Seq<WidgetV>;

    /// The plan of an unbounded numeric input.
    spec fn drag_plan(&self, label: Seq<char>) -> Seq<WidgetV>;

    /// Plans a numeric input bound to the closed range `[min, max]`.
    fn inspect_with_slider(&self, label: &str, min: &str, max: &str) -> (out: Vec<Widget>)
        ensures
            out.deep_view() == self.slider_plan(label@, min@, max@),
    ;

    /// Plans a free-form numeric input.
    fn inspect_with_drag_value(&self, label: &str) -> (out: Vec<Widget>)
        ensures
            out.deep_view() == self.drag_plan(label@),
    ;
}

/// The two owned-text edit strategies that generated code calls directly.
pub trait InspectString {
    /// The plan of a multi-row edit box.
    spec fn multiline_plan(&self, label: Seq<char>) -> Seq<WidgetV>;

    /// The plan of a single-row edit box.
    spec fn singleline_plan(&self, label: Seq<char>) -> Seq<WidgetV>;

    /// Plans a multi-row edit box holding the current text.
    fn inspect_mut_multiline(&self, label: &str) -> (out: Vec<Widget>)
        ensures
            out.deep_view() == self.multiline_plan(label@),
    ;

    /// Plans a single-row edit box holding the current text.
    fn inspect_mut_singleline(&self, label: &str) -> (out: Vec<Widget>)
        ensures
            out.deep_view() == self.singleline_plan(label@),
    ;
}

} // verus!
