//! Small helpers shared by the dispatch engine: reading the type-name token
//! of a field's declared type, string comparison, and the generic fallback
//! call of the two-mode contract.

use vstd::prelude::*;

use crate::directive::Directive;
use crate::directive::DirectiveV;
use crate::directive::FieldTarget;
use crate::directive::FieldTargetV;
use crate::model::TypeSyntax;

verus! {

/// Whether two string slices hold the same characters.
pub fn str_eq(a: &str, b: &str) -> (r: bool)
    ensures
        r == (a@ == b@),
{
    let sa = String::from_str(a);
    let sb = String::from_str(b);
    sa == sb
}

/// The type-name token that dispatch reads from a declared type: the
/// identifier of a plain single-segment path, seen through any number of
/// references; nothing for a longer or generic path (those always take the
/// generic fallback); the empty token for any other shape.
pub open spec fn path_str_of(t: TypeSyntax) -> Option<Seq<char>>
    decreases t,
{
    match t {
        TypeSyntax::Plain(s) => Some(s@),
        TypeSyntax::Qualified => None,
        TypeSyntax::Reference(inner) => path_str_of(*inner),
        TypeSyntax::Other => Some(Seq::empty()),
    }
}

/// Reads the type-name token of a declared type, as [`path_str_of`] says.
pub fn get_path_str(type_path: &TypeSyntax) -> (r: Option<String>)
    ensures
        match r {
            Some(s) => path_str_of(*type_path) == Some(s@),
            None => path_str_of(*type_path) is None,
        },
    decreases *type_path,
{
    match type_path {
        TypeSyntax::Plain(s) => Some(s.clone()),
        TypeSyntax::Qualified => None,
        TypeSyntax::Reference(inner) => get_path_str(inner),
        TypeSyntax::Other => Some(String::new()),
    }
}

/// Relies on String::push: it appends the given character to the end of
/// the string.
#[verifier::external_body]
pub(crate) fn push_char(s: &mut String, c: char)
    ensures
        final(s)@ == old(s)@.push(c),
{
    s.push(c);
}

/// Copies a list of strings.
pub fn clone_strings(v: &Vec<String>) -> (r: Vec<String>)
    ensures
        r.deep_view() == v.deep_view(),
{
    let mut out: Vec<String> = Vec::new();
    let mut i: usize = 0;
    while i < v.len()
        invariant
            i <= v.len(),
            out.deep_view() == v.deep_view().subrange(0, i as int),
        decreases v.len() - i,
    {
        let ghost out0 = out.deep_view();
        out.push(v[i].clone());
        proof {
            assert(out.deep_view() =~= out0.push(v.deep_view()[i as int]));
            assert(out0.push(v.deep_view()[i as int]) =~= v.deep_view().subrange(0, i as int + 1));
        }
        i = i + 1;
    }
    proof {
        assert(v.deep_view().subrange(0, v@.len() as int) =~= v.deep_view());
    }
    out
}

/// The generic fallback directive: a call of the two-mode contract on the
/// field itself, mutable in edit mode, immutable otherwise.
pub open spec fn default_call_spec(target: FieldTargetV, name: Seq<char>, mutable: bool)
    -> DirectiveV {
    if mutable {
        DirectiveV::InspectMutCall { target, name }
    } else {
        DirectiveV::InspectCall { target, name }
    }
}

/// Emits the generic fallback directive for a field.
pub fn get_default_function_call(target: FieldTarget, name: String, mutable: bool)
    -> (d: Directive)
    ensures
        d@ == default_call_spec(target@, name@, mutable),
{
    if mutable {
        Directive::InspectMutCall { target, name }
    } else {
        Directive::InspectCall { target, name }
    }
}

} // verus!
