//! Dispatch over the closed set of internally handled type-name tokens:
//! the primitive numbers and the text types get specialized edit-mode
//! directives; everything else falls back to the generic two-mode contract.

use vstd::prelude::*;

use crate::attrs::ArgsModel;
use crate::attrs::AttributeArgs;
use crate::attrs::display_name;
use crate::attrs::display_name_of;
use crate::directive::Directive;
use crate::directive::DirectiveV;
use crate::model::NamedField;
use crate::utils::get_path_str;
use crate::utils::path_str_of;
use crate::utils::str_eq;

verus! {

/// The closed set of type-name tokens with their own dispatch rules.
pub open spec fn internally_handled(s: Seq<char>) -> bool {
    s == "f32"@ || s == "f64"@ || s == "u8"@ || s == "i8"@ || s == "u16"@ || s == "i16"@ || s
        == "u32"@ || s == "i32"@ || s == "u64"@ || s == "i64"@ || s == "usize"@ || s == "isize"@
        || s == "bool"@ || s == "String"@ || s == "str"@
}

/// The type-name tokens that take the specialized numeric edit rules.
pub open spec fn is_number_path(s: Seq<char>) -> bool {
    s == "f64"@ || s == "f32"@ || s == "u8"@ || s == "i8"@ || s == "u16"@ || s == "i16"@ || s
        == "u32"@ || s == "i32"@ || s == "u64"@ || s == "i64"@ || s == "usize"@ || s == "isize"@
}

/// Whether a type-name token is in the closed internally handled set.
pub fn path_is_internally_handled(path_str: &String) -> (r: bool)
    ensures
        r == internally_handled(path_str@),
{
    let p = path_str.as_str();
    str_eq(p, "f32") || str_eq(p, "f64") || str_eq(p, "u8") || str_eq(p, "i8") || str_eq(p, "u16")
        || str_eq(p, "i16") || str_eq(p, "u32") || str_eq(p, "i32") || str_eq(p, "u64") || str_eq(
        p,
        "i64",
    ) || str_eq(p, "usize") || str_eq(p, "isize") || str_eq(p, "bool") || str_eq(p, "String")
        || str_eq(p, "str")
}

/// The edit-mode directive of a numeric field: nothing at all when editing
/// is barred (the field is then treated as hidden for edit mode only), a
/// bounded range input over the configured interval when `slider` is set,
/// an unbounded free-form input otherwise. Display mode falls back to the
/// generic contract.
pub open spec fn number_path_directive(f: NamedField, m: ArgsModel, mutable: bool) -> Option<
    DirectiveV,
> {
    if mutable && m.no_edit {
        Some(DirectiveV::Empty)
    } else if mutable && m.slider {
        Some(
            DirectiveV::SliderCall {
                field: f.ident@,
                name: display_name(f, m),
                min: m.min,
                max: m.max,
            },
        )
    } else if mutable {
        Some(DirectiveV::DragCall { field: f.ident@, name: display_name(f, m) })
    } else {
        None
    }
}

/// Emits the specialized numeric directive, as [`number_path_directive`]
/// says.
pub fn handle_number_path(field: &NamedField, mutable: bool, attrs: &AttributeArgs) -> (r: Option<
    Directive,
>)
    ensures
        match r {
            Some(d) => number_path_directive(*field, attrs@, mutable) == Some(d@),
            None => number_path_directive(*field, attrs@, mutable) is None,
        },
{
    if mutable && attrs.no_edit {
        Some(Directive::Empty)
    } else if mutable && attrs.slider {
        Some(
            Directive::SliderCall {
                field: field.ident.clone(),
                name: display_name_of(field, attrs),
                min: attrs.min.clone(),
                max: attrs.max.clone(),
            },
        )
    } else if mutable {
        Some(Directive::DragCall { field: field.ident.clone(), name: display_name_of(field, attrs) })
    } else {
        None
    }
}

/// The edit-mode directive of an owned-text field: a multi-row or a
/// single-row edit box. A field barred from editing, and display mode,
/// fall back to the generic contract.
pub open spec fn string_path_directive(f: NamedField, m: ArgsModel, mutable: bool) -> Option<
    DirectiveV,
> {
    if mutable && !m.no_edit && m.multiline {
        Some(DirectiveV::MultilineCall { field: f.ident@, name: display_name(f, m) })
    } else if mutable && !m.no_edit {
        Some(DirectiveV::SinglelineCall { field: f.ident@, name: display_name(f, m) })
    } else {
        None
    }
}

/// Emits the specialized owned-text directive, as
/// [`string_path_directive`] says.
pub fn handle_string_path(field: &NamedField, mutable: bool, attrs: &AttributeArgs) -> (r: Option<
    Directive,
>)
    ensures
        match r {
            Some(d) => string_path_directive(*field, attrs@, mutable) == Some(d@),
            None => string_path_directive(*field, attrs@, mutable) is None,
        },
{
    if mutable && !attrs.no_edit && attrs.multiline {
        Some(
            Directive::MultilineCall {
                field: field.ident.clone(),
                name: display_name_of(field, attrs),
            },
        )
    } else if mutable && !attrs.no_edit {
        Some(
            Directive::SinglelineCall {
                field: field.ident.clone(),
                name: display_name_of(field, attrs),
            },
        )
    } else {
        None
    }
}

/// The specialized directive of a field whose type-name token is in the
/// closed set, if its rules give one; `None` sends the field to the
/// generic fallback.
pub open spec fn internal_path_directive(f: NamedField, m: ArgsModel, mutable: bool) -> Option<
    DirectiveV,
> {
    match path_str_of(f.ty) {
        None => None,
        Some(p) => if !internally_handled(p) {
            None
        } else if is_number_path(p) {
            number_path_directive(f, m, mutable)
        } else if p == "String"@ {
            string_path_directive(f, m, mutable)
        } else {
            None
        },
    }
}

/// Tries the closed set's dispatch rules on a field, as
/// [`internal_path_directive`] says.
pub fn try_handle_internal_path(field: &NamedField, mutable: bool, attrs: &AttributeArgs) -> (r:
    Option<Directive>)
    ensures
        match r {
            Some(d) => internal_path_directive(*field, attrs@, mutable) == Some(d@),
            None => internal_path_directive(*field, attrs@, mutable) is None,
        },
{
    let path_str = match get_path_str(&field.ty) {
        Some(p) => p,
        None => {
            return None;
        },
    };
    if !path_is_internally_handled(&path_str) {
        return None;
    }
    let p = path_str.as_str();
    if str_eq(p, "f64") || str_eq(p, "f32") || str_eq(p, "u8") || str_eq(p, "i8") || str_eq(
        p,
        "u16",
    ) || str_eq(p, "i16") || str_eq(p, "u32") || str_eq(p, "i32") || str_eq(p, "u64") || str_eq(
        p,
        "i64",
    ) || str_eq(p, "usize") || str_eq(p, "isize") {
        handle_number_path(field, mutable, attrs)
    } else if str_eq(p, "String") {
        handle_string_path(field, mutable, attrs)
    } else {
        None
    }
}

} // verus!
