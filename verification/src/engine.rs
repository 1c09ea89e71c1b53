//! The dispatch and code-generation engine: for each visible field and
//! each mode it chooses exactly one directive — custom handlers first, the
//! closed primitive set next, the generic two-mode contract last — and it
//! renders the whole type definition as the text of the generated
//! two-mode implementation.

use vstd::prelude::*;

use crate::attrs::ArgsModel;
use crate::model::DiagV;
use crate::attrs::AttributeArgs;

use crate::attrs::display_name;
use crate::attrs::display_name_of;
use crate::attrs::from_entries;
use crate::attrs::resolve_rec;
use crate::decimal::dec_of;
use crate::decimal::usize_dec;
use crate::directive::Directive;
use crate::directive::DirectiveV;
use crate::directive::FieldTarget;
use crate::directive::FieldTargetV;
use crate::directive::body_code;
use crate::directive::directives_code;
use crate::internal_paths::internal_path_directive;
use crate::internal_paths::try_handle_internal_path;
use crate::model::Data;
use crate::model::DeriveInput;
use crate::model::Diag;
use crate::model::Fields;
use crate::model::NamedField;
use crate::model::GenericParam;
use crate::model::GenericParamV;
use crate::model::Generics;
use crate::model::TypeParam;
use crate::model::TypeParamV;
use crate::utils::default_call_spec;
use crate::utils::get_default_function_call;

verus! {

/// The custom-handler directive of a field, if one applies: in edit mode
/// the edit handler is called, with a mutable reference, unless editing is
/// barred; in display mode the display handler is called, with an
/// immutable reference, whether or not editing is barred.
pub open spec fn custom_func_directive(f: NamedField, m: ArgsModel, mutable: bool) -> Option<
    DirectiveV,
> {
    if mutable && !m.no_edit && m.custom_func_mut is Some {
        Some(
            DirectiveV::CustomMut {
                func: m.custom_func_mut->0,
                field: f.ident@,
                name: display_name(f, m),
            },
        )
    } else if !mutable && m.custom_func is Some {
        Some(
            DirectiveV::CustomRef {
                func: m.custom_func->0,
                field: f.ident@,
                name: display_name(f, m),
            },
        )
    } else {
        None
    }
}

/// Emits the custom-handler directive, as [`custom_func_directive`] says.
pub fn handle_custom_func(field: &NamedField, mutable: bool, attrs: &AttributeArgs) -> (r: Option<
    Directive,
>)
    ensures
        match r {
            Some(d) => custom_func_directive(*field, attrs@, mutable) == Some(d@),
            None => custom_func_directive(*field, attrs@, mutable) is None,
        },
{
    if mutable && !attrs.no_edit {
        match &attrs.custom_func_mut {
            Some(func) => {
                return Some(
                    Directive::CustomMut {
                        func: func.clone(),
                        field: field.ident.clone(),
                        name: display_name_of(field, attrs),
                    },
                );
            },
            None => {
                return None;
            },
        }
    }
    if !mutable {
        match &attrs.custom_func {
            Some(func) => {
                return Some(
                    Directive::CustomRef {
                        func: func.clone(),
                        field: field.ident.clone(),
                        name: display_name_of(field, attrs),
                    },
                );
            },
            None => {
                return None;
            },
        }
    }
    None
}

/// The one directive of a named field in one mode, by the documented
/// precedence: a hidden field emits nothing; then custom handlers; then
/// the closed primitive set; then the generic two-mode contract, mutable
/// exactly when the mode is edit and editing is not barred.
pub open spec fn field_directive(f: NamedField, m: ArgsModel, mutable: bool) -> DirectiveV {
    if m.hide {
        DirectiveV::Empty
    } else {
        match custom_func_directive(f, m, mutable) {
            Some(d) => d,
            None => match internal_path_directive(f, m, mutable) {
                Some(d) => d,
                None => default_call_spec(
                    FieldTargetV::Named(f.ident@),
                    display_name(f, m),
                    mutable && !m.no_edit,
                ),
            },
        }
    }
}

/// The directive of one named field, after resolving its annotations.
pub open spec fn named_field_result(f: NamedField, mutable: bool) -> Result<DirectiveV, DiagV> {
    match resolve_rec(f.ident@, f.attrs@) {
        Err(d) => Err(d),
        Ok(m) => Ok(field_directive(f, m, mutable)),
    }
}

/// The whole directive list of a named-field struct in one mode: a strong
/// label first, then one directive per field in declaration order,
/// stopping at the first field whose annotations raise a diagnostic.
pub open spec fn named_body(fs: Seq<NamedField>, mutable: bool) -> Result<Seq<DirectiveV>, DiagV>
    decreases fs.len(),
{
    if fs.len() == 0 {
        Ok(seq![DirectiveV::StrongLabel])
    } else {
        match named_body(fs.drop_last(), mutable) {
            Err(d) => Err(d),
            Ok(ds) => match named_field_result(fs.last(), mutable) {
                Err(d) => Err(d),
                Ok(d) => Ok(ds.push(d)),
            },
        }
    }
}

/// Unfolds [`named_body`] by one field of a prefix.
proof fn lemma_named_step(fs: Seq<NamedField>, mutable: bool, i: int)
    requires
        0 <= i < fs.len(),
    ensures
        named_body(fs.subrange(0, i + 1), mutable) == match named_body(fs.subrange(0, i), mutable) {
            Err(d) => Err(d),
            Ok(ds) => match named_field_result(fs[i], mutable) {
                Err(d) => Err::<Seq<DirectiveV>, DiagV>(d),
                Ok(d) => Ok(ds.push(d)),
            },
        },
{
    assert(fs.subrange(0, i + 1).drop_last() =~= fs.subrange(0, i));
    assert(fs.subrange(0, i + 1).last() == fs[i]);
}

/// A diagnostic raised at field `i` is the result for the whole list.
proof fn lemma_named_err_final(fs: Seq<NamedField>, mutable: bool, i: int)
    requires
        0 <= i < fs.len(),
        named_body(fs.subrange(0, i + 1), mutable) is Err,
    ensures
        named_body(fs, mutable) == named_body(fs.subrange(0, i + 1), mutable),
    decreases fs.len() - i,
{
    if i + 1 < fs.len() {
        lemma_named_step(fs, mutable, i + 1);
        lemma_named_err_final(fs, mutable, i + 1);
    } else {
        assert(fs.subrange(0, fs.len() as int) =~= fs);
    }
}

/// Emits the directives of a named-field struct, as [`named_body`] says.
pub fn handle_named_fields(fields: &Vec<NamedField>, mutable: bool) -> (r: Result<
    Vec<Directive>,
    Diag,
>)
    ensures
        match r {
            Ok(v) => named_body(fields@, mutable) == Ok::<Seq<DirectiveV>, DiagV>(v.deep_view()),
            Err(d) => named_body(fields@, mutable) == Err::<Seq<DirectiveV>, DiagV>(d@),
        },
{
    let mut out: Vec<Directive> = Vec::new();
    out.push(Directive::StrongLabel);
    proof {
        assert(out.deep_view() =~= seq![DirectiveV::StrongLabel]);
        assert(fields@.subrange(0, 0) =~= Seq::<NamedField>::empty());
    }
    let mut i: usize = 0;
    while i < fields.len()
        invariant
            i <= fields.len(),
            named_body(fields@.subrange(0, i as int), mutable) == Ok::<Seq<DirectiveV>, DiagV>(
                out.deep_view(),
            ),
        decreases fields.len() - i,
    {
        proof {
            lemma_named_step(fields@, mutable, i as int);
        }
        let ghost out0 = out.deep_view();
        let f = &fields[i];
        let attr = match from_entries(f.ident.as_str(), &f.attrs) {
            Ok(a) => a,
            Err(d) => {
                proof {
                    lemma_named_err_final(fields@, mutable, i as int);
                    assert(fields@.subrange(0, fields@.len() as int) =~= fields@);
                }
                return Err(d);
            },
        };
        let d: Directive = if attr.hide {
            Directive::Empty
        } else {
            match handle_custom_func(f, mutable, &attr) {
                Some(d) => d,
                None => match try_handle_internal_path(f, mutable, &attr) {
                    Some(d) => d,
                    None => get_default_function_call(
                        FieldTarget::Named(f.ident.clone()),
                        display_name_of(f, &attr),
                        mutable && !attr.no_edit,
                    ),
                },
            }
        };
        assert(d@ == field_directive(fields@[i as int], attr@, mutable));
        out.push(d);
        proof {
            assert(out.deep_view() =~= out0.push(d@));
        }
        i = i + 1;
    }
    proof {
        assert(fields@.subrange(0, fields@.len() as int) =~= fields@);
    }
    Ok(out)
}

/// The directive of one positional field: the generic contract call on
/// `self.<i>`, labeled `"Field <i>"`. Positional fields carry no
/// annotations.
pub open spec fn tuple_field_directive(i: nat, mutable: bool) -> DirectiveV {
    default_call_spec(FieldTargetV::Index(i as int), "Field "@ + dec_of(i), mutable)
}

/// The whole directive list of a tuple-style struct with `n` positional
/// fields: a strong label, then one generic call per position.
pub open spec fn unnamed_body(n: nat, mutable: bool) -> Seq<DirectiveV>
    decreases n,
{
    if n == 0 {
        seq![DirectiveV::StrongLabel]
    } else {
        unnamed_body((n - 1) as nat, mutable).push(tuple_field_directive((n - 1) as nat, mutable))
    }
}

/// Emits the directives of a tuple-style struct, as [`unnamed_body`] says.
pub fn handle_unnamed_fields(count: usize, mutable: bool) -> (r: Vec<Directive>)
    ensures
        r.deep_view() == unnamed_body(count as nat, mutable),
{
    let mut out: Vec<Directive> = Vec::new();
    out.push(Directive::StrongLabel);
    proof {
        assert(out.deep_view() =~= seq![DirectiveV::StrongLabel]);
    }
    let mut i: usize = 0;
    while i < count
        invariant
            i <= count,
            out.deep_view() == unnamed_body(i as nat, mutable),
        decreases count - i,
    {
        let ghost out0 = out.deep_view();
        let mut name = String::from_str("Field ");
        name.append(usize_dec(i).as_str());
        let d = get_default_function_call(FieldTarget::Index(i), name, mutable);
        assert(d@ == tuple_field_directive(i as nat, mutable));
        out.push(d);
        proof {
            assert(out.deep_view() =~= out0.push(d@));
        }
        i = i + 1;
    }
    out
}

/// The directive list a type definition generates in one mode, or the
/// diagnostic it raises: named and tuple-style structs generate their
/// bodies; unit structs, enums and unions are refused.
pub open spec fn struct_body(data: Data, mutable: bool) -> Result<Seq<DirectiveV>, DiagV> {
    match data {
        Data::Struct(Fields::Named(fs)) => named_body(fs@, mutable),
        Data::Struct(Fields::Unnamed(ts)) => Ok(unnamed_body(ts@.len(), mutable)),
        Data::Struct(Fields::Unit) => Err(DiagV::UnitUnsupported),
        Data::Enum => Err(DiagV::EnumOrUnionUnsupported),
        Data::Union => Err(DiagV::EnumOrUnionUnsupported),
    }
}

/// Emits the directives of one mode for a whole type definition, as
/// [`struct_body`] says; in particular it fails, rather than emitting
/// anything, on enums, unions and unit structs.
pub fn inspect_struct(data: &Data, mutable: bool) -> (r: Result<Vec<Directive>, Diag>)
    ensures
        match r {
            Ok(v) => struct_body(*data, mutable) == Ok::<Seq<DirectiveV>, DiagV>(v.deep_view()),
            Err(d) => struct_body(*data, mutable) == Err::<Seq<DirectiveV>, DiagV>(d@),
        },
{
    match data {
        Data::Struct(fields) => match fields {
            Fields::Named(fs) => handle_named_fields(fs, mutable),
            Fields::Unnamed(ts) => Ok(handle_unnamed_fields(ts.len(), mutable)),
            Fields::Unit => Err(Diag::UnitUnsupported),
        },
        Data::Enum => Err(Diag::EnumOrUnionUnsupported),
        Data::Union => Err(Diag::EnumOrUnionUnsupported),
    }
}

/// Appends the two-mode contract itself to a type parameter's bounds, so
/// that every field of a parameter type supports the generated calls.
pub open spec fn with_inspect_bound(p: TypeParamV) -> TypeParamV {
    TypeParamV { ident: p.ident, bounds: p.bounds.push("egui_inspect::EguiInspect"@) }
}

/// The same on any generic parameter: lifetime and const parameters pass
/// through unchanged.
pub open spec fn with_inspect_bound_param(p: GenericParamV) -> GenericParamV {
    match p {
        GenericParamV::Type(tp) => GenericParamV::Type(with_inspect_bound(tp)),
        other => other,
    }
}

/// Copies one generic parameter.
fn clone_param(p: &GenericParam) -> (r: GenericParam)
    ensures
        r.deep_view() == p.deep_view(),
{
    match p {
        GenericParam::Lifetime { ident, bounds } => {
            let r = GenericParam::Lifetime {
                ident: ident.clone(),
                bounds: crate::utils::clone_strings(bounds),
            };
            assert(r.deep_view() =~= p.deep_view());
            r
        },
        GenericParam::Type(tp) => {
            let r = GenericParam::Type(
                TypeParam { ident: tp.ident.clone(), bounds: crate::utils::clone_strings(&tp.bounds) },
            );
            assert(r.deep_view() =~= p.deep_view());
            r
        },
        GenericParam::Const { ident, ty } => GenericParam::Const {
            ident: ident.clone(),
            ty: ty.clone(),
        },
    }
}

/// Adds the two-mode contract bound to every type parameter. Lifetime and
/// const parameters, the parameters' order and count, and the where
/// clause stay exactly as they are.
pub fn add_trait_bounds(generics: &Generics) -> (r: Generics)
    ensures
        r@.params == generics@.params.map_values(
            |p: GenericParamV| with_inspect_bound_param(p),
        ),
        r@.where_clause == generics@.where_clause,
{
    let mut out: Vec<GenericParam> = Vec::new();
    let mut i: usize = 0;
    while i < generics.params.len()
        invariant
            i <= generics.params.len(),
            out.deep_view() == generics.params.deep_view().subrange(0, i as int).map_values(
                |p: GenericParamV| with_inspect_bound_param(p),
            ),
        decreases generics.params.len() - i,
    {
        let p = &generics.params[i];
        let q: GenericParam = match p {
            GenericParam::Type(tp) => {
                let mut bs = crate::utils::clone_strings(&tp.bounds);
                bs.push(String::from_str("egui_inspect::EguiInspect"));
                GenericParam::Type(TypeParam { ident: tp.ident.clone(), bounds: bs })
            },
            _ => clone_param(p),
        };
        assert(q.deep_view() =~= with_inspect_bound_param(
            generics.params.deep_view()[i as int],
        ));
        let ghost out0 = out.deep_view();
        out.push(q);
        proof {
            let dv = generics.params.deep_view();
            assert(out.deep_view() =~= out0.push(with_inspect_bound_param(dv[i as int])));
            assert(out0.push(with_inspect_bound_param(dv[i as int])) =~= dv.subrange(
                0,
                i as int + 1,
            ).map_values(|p: GenericParamV| with_inspect_bound_param(p)));
        }
        i = i + 1;
    }
    proof {
        assert(generics.params.deep_view().subrange(0, generics.params@.len() as int)
            =~= generics.params.deep_view());
    }
    let where_clause = match &generics.where_clause {
        Some(w) => Some(w.clone()),
        None => None,
    };
    Generics { params: out, where_clause }
}

/// A bound list joined with `" + "`.
pub open spec fn bounds_text(bs: Seq<Seq<char>>) -> Seq<char>
    decreases bs.len(),
{
    if bs.len() == 0 {
        Seq::empty()
    } else if bs.len() == 1 {
        bs[0]
    } else {
        bounds_text(bs.drop_last()) + " + "@ + bs.last()
    }
}

/// Joins a bound list with `" + "`.
fn join_bounds(bs: &Vec<String>) -> (s: String)
    ensures
        s@ == bounds_text(bs.deep_view()),
{
    let mut s = String::new();
    let mut i: usize = 0;
    while i < bs.len()
        invariant
            i <= bs.len(),
            s@ == bounds_text(bs.deep_view().subrange(0, i as int)),
        decreases bs.len() - i,
    {
        if i > 0 {
            s.append(" + ");
        }
        s.append(bs[i].as_str());
        proof {
            let dv = bs.deep_view();
            assert(dv.subrange(0, i as int + 1).drop_last() =~= dv.subrange(0, i as int));
            assert(dv.subrange(0, i as int + 1).last() == dv[i as int]);
        }
        i = i + 1;
    }
    proof {
        assert(bs.deep_view().subrange(0, bs@.len() as int) =~= bs.deep_view());
    }
    s
}

/// One generic parameter as it stands in the generated impl header.
pub open spec fn param_decl_text(p: GenericParamV) -> Seq<char> {
    match p {
        GenericParamV::Lifetime { ident, bounds } => if bounds.len() == 0 {
            ident
        } else {
            ident + ": "@ + bounds_text(bounds)
        },
        GenericParamV::Type(tp) => if tp.bounds.len() == 0 {
            tp.ident
        } else {
            tp.ident + ": "@ + bounds_text(tp.bounds)
        },
        GenericParamV::Const { ident, ty } => "const "@ + ident + ": "@ + ty,
    }
}

/// Renders one generic parameter for the impl header.
fn param_decl(p: &GenericParam) -> (s: String)
    ensures
        s@ == param_decl_text(p.deep_view()),
{
    match p {
        GenericParam::Lifetime { ident, bounds } => {
            let mut s = ident.clone();
            if bounds.len() > 0 {
                s.append(": ");
                s.append(join_bounds(bounds).as_str());
            }
            assert(s@ =~= param_decl_text(p.deep_view()));
            s
        },
        GenericParam::Type(tp) => {
            let mut s = tp.ident.clone();
            if tp.bounds.len() > 0 {
                s.append(": ");
                s.append(join_bounds(&tp.bounds).as_str());
            }
            assert(s@ =~= param_decl_text(p.deep_view()));
            s
        },
        GenericParam::Const { ident, ty } => {
            let mut s = String::from_str("const ");
            s.append(ident.as_str());
            s.append(": ");
            s.append(ty.as_str());
            assert(s@ =~= param_decl_text(p.deep_view()));
            s
        },
    }
}

/// The parameter declarations joined with `", "`.
pub open spec fn params_decl_text(ps: Seq<GenericParamV>) -> Seq<char>
    decreases ps.len(),
{
    if ps.len() == 0 {
        Seq::empty()
    } else if ps.len() == 1 {
        param_decl_text(ps[0])
    } else {
        params_decl_text(ps.drop_last()) + ", "@ + param_decl_text(ps.last())
    }
}

/// The `<...>` list the generated impl is generic over; empty when the
/// type has no parameters.
pub open spec fn impl_generics_text(ps: Seq<GenericParamV>) -> Seq<char> {
    if ps.len() == 0 {
        Seq::empty()
    } else {
        "<"@ + params_decl_text(ps) + ">"@
    }
}

/// Renders the generic parameter list of the impl header.
fn impl_generics_string(ps: &Vec<GenericParam>) -> (s: String)
    ensures
        s@ == impl_generics_text(ps.deep_view()),
{
    if ps.len() == 0 {
        return String::new();
    }
    let mut s = String::from_str("<");
    let mut i: usize = 0;
    while i < ps.len()
        invariant
            i <= ps.len(),
            ps.len() > 0,
            s@ == "<"@ + if i == 0 {
                Seq::<char>::empty()
            } else {
                params_decl_text(ps.deep_view().subrange(0, i as int))
            },
        decreases ps.len() - i,
    {
        if i > 0 {
            s.append(", ");
        }
        s.append(param_decl(&ps[i]).as_str());
        proof {
            let dv = ps.deep_view();
            assert(dv.subrange(0, i as int + 1).drop_last() =~= dv.subrange(0, i as int));
            assert(dv.subrange(0, i as int + 1).last() == dv[i as int]);
            assert(s@ =~= "<"@ + params_decl_text(dv.subrange(0, i as int + 1)));
        }
        i = i + 1;
    }
    s.append(">");
    proof {
        assert(ps.deep_view().subrange(0, ps@.len() as int) =~= ps.deep_view());
        assert(s@ =~= impl_generics_text(ps.deep_view()));
    }
    s
}

/// A parameter as it stands applied after the type's name.
pub open spec fn param_use_text(p: GenericParamV) -> Seq<char> {
    match p {
        GenericParamV::Lifetime { ident, .. } => ident,
        GenericParamV::Type(tp) => tp.ident,
        GenericParamV::Const { ident, .. } => ident,
    }
}

/// Renders one parameter name for the argument list.
fn param_use_string(p: &GenericParam) -> (s: String)
    ensures
        s@ == param_use_text(p.deep_view()),
{
    match p {
        GenericParam::Lifetime { ident, .. } => ident.clone(),
        GenericParam::Type(tp) => tp.ident.clone(),
        GenericParam::Const { ident, .. } => ident.clone(),
    }
}

/// The parameter names joined with `", "`.
pub open spec fn idents_text(ps: Seq<GenericParamV>) -> Seq<char>
    decreases ps.len(),
{
    if ps.len() == 0 {
        Seq::empty()
    } else if ps.len() == 1 {
        param_use_text(ps[0])
    } else {
        idents_text(ps.drop_last()) + ", "@ + param_use_text(ps.last())
    }
}

/// The `<...>` list the inspected type is applied to; empty when the type
/// has no parameters.
pub open spec fn ty_generics_text(ps: Seq<GenericParamV>) -> Seq<char> {
    if ps.len() == 0 {
        Seq::empty()
    } else {
        "<"@ + idents_text(ps) + ">"@
    }
}

/// Renders the generic argument list after the type's name.
fn ty_generics_string(ps: &Vec<GenericParam>) -> (s: String)
    ensures
        s@ == ty_generics_text(ps.deep_view()),
{
    if ps.len() == 0 {
        return String::new();
    }
    let mut s = String::from_str("<");
    let mut i: usize = 0;
    while i < ps.len()
        invariant
            i <= ps.len(),
            ps.len() > 0,
            s@ == "<"@ + if i == 0 {
                Seq::<char>::empty()
            } else {
                idents_text(ps.deep_view().subrange(0, i as int))
            },
        decreases ps.len() - i,
    {
        if i > 0 {
            s.append(", ");
        }
        s.append(param_use_string(&ps[i]).as_str());
        proof {
            let dv = ps.deep_view();
            assert(dv.subrange(0, i as int + 1).drop_last() =~= dv.subrange(0, i as int));
            assert(dv.subrange(0, i as int + 1).last() == dv[i as int]);
            assert(s@ =~= "<"@ + idents_text(dv.subrange(0, i as int + 1)));
        }
        i = i + 1;
    }
    s.append(">");
    proof {
        assert(ps.deep_view().subrange(0, ps@.len() as int) =~= ps.deep_view());
        assert(s@ =~= ty_generics_text(ps.deep_view()));
    }
    s
}

/// The where clause as it stands in the generated header.
pub open spec fn where_text(w: Option<Seq<char>>) -> Seq<char> {
    match w {
        None => Seq::empty(),
        Some(preds) => " where "@ + preds,
    }
}

/// The full text of the generated two-mode implementation.
pub open spec fn impl_text(
    input: DeriveInput,
    display_ds: Seq<DirectiveV>,
    edit_ds: Seq<DirectiveV>,
) -> Seq<char> {
    "impl"@ + impl_generics_text(
        input.generics@.params.map_values(|p: GenericParamV| with_inspect_bound_param(p)),
    ) + " egui_inspect::EguiInspect for "@ + input.ident@ + ty_generics_text(
        input.generics@.params,
    ) + where_text(input.generics@.where_clause) + " {\n"@
        + "fn inspect(&self, label: &str, ui: &mut egui::Ui) {\n"@ + body_code(display_ds)
        + "}\n"@ + "fn inspect_mut(&mut self, label: &str, ui: &mut egui::Ui) {\n"@ + body_code(
        edit_ds,
    ) + "}\n"@ + "}\n"@
}

/// What generation gives for a whole type definition: the generated
/// implementation's text, or the diagnostic of the display pass, or else
/// of the edit pass.
pub open spec fn derive_spec(input: DeriveInput) -> Result<Seq<char>, DiagV> {
    match struct_body(input.data, false) {
        Err(d) => Err(d),
        Ok(ds) => match struct_body(input.data, true) {
            Err(d) => Err(d),
            Ok(es) => Ok(impl_text(input, ds, es)),
        },
    }
}

/// Generates the two-mode implementation for one type definition, as
/// [`derive_spec`] says: both procedures' bodies from the dispatch rules,
/// under an impl header that bounds every type parameter by the contract
/// and keeps the other generics and the where clause as written.
pub fn derive_egui_inspect(input: &DeriveInput) -> (r: Result<String, Diag>)
    ensures
        match r {
            Ok(s) => derive_spec(*input) == Ok::<Seq<char>, DiagV>(s@),
            Err(d) => derive_spec(*input) == Err::<Seq<char>, DiagV>(d@),
        },
{
    let display_ds = match inspect_struct(&input.data, false) {
        Ok(v) => v,
        Err(d) => {
            return Err(d);
        },
    };
    let edit_ds = match inspect_struct(&input.data, true) {
        Ok(v) => v,
        Err(d) => {
            return Err(d);
        },
    };
    let bounded = add_trait_bounds(&input.generics);
    let mut s = String::from_str("impl");
    s.append(impl_generics_string(&bounded.params).as_str());
    s.append(" egui_inspect::EguiInspect for ");
    s.append(input.ident.as_str());
    s.append(ty_generics_string(&input.generics.params).as_str());
    match &input.generics.where_clause {
        Some(w) => {
            s.append(" where ");
            s.append(w.as_str());
        },
        None => {},
    }
    s.append(" {\n");
    s.append("fn inspect(&self, label: &str, ui: &mut egui::Ui) {\n");
    s.append(directives_code(&display_ds).as_str());
    s.append("}\n");
    s.append("fn inspect_mut(&mut self, label: &str, ui: &mut egui::Ui) {\n");
    s.append(directives_code(&edit_ds).as_str());
    s.append("}\n");
    s.append("}\n");
    assert(s@ =~= impl_text(*input, display_ds.deep_view(), edit_ds.deep_view()));
    Ok(s)
}

} // verus!
