//! Input model for the generation policy: the shape of a type definition,
//! its fields, and the raw annotations attached to each field, together with
//! the diagnostics that generation can report.

use vstd::prelude::*;

verus! {

/// The shape of a field's declared type, as far as the generation policy
/// reads it: a plain single-identifier path (`u32`, `String`), a path with
/// several segments or generic arguments (`Vec<T>`, `std::string::String`),
/// a reference to another type, or anything else (arrays, tuples, ...).
#[derive(Debug, PartialEq, Eq)]
pub enum TypeSyntax {
    Plain(String),
    Qualified,
    Reference(Box<TypeSyntax>),
    Other,
}

/// The value attached to one annotation key: a bare flag (`hide`),
/// a boolean literal (`hide = true`), a numeric literal kept as its source
/// text (`min = 12.0`), or a string literal (`name = "X axis"`).
#[derive(Debug, PartialEq, Eq)]
pub enum AttrValue {
    Flag,
    BoolLit(bool),
    NumLit(String),
    StrLit(String),
}

/// One raw `key = value` (or bare `key`) annotation on a field.
#[derive(Debug, PartialEq, Eq)]
pub struct AttrEntry {
    pub key: String,
    pub value: AttrValue,
}

/// A named struct field: its identifier, declared type shape, and raw
/// annotations.
#[derive(Debug, PartialEq, Eq)]
pub struct NamedField {
    pub ident: String,
    pub ty: TypeSyntax,
    pub attrs: Vec<AttrEntry>,
}

/// The field list of a struct definition.
#[derive(Debug, PartialEq, Eq)]
pub enum Fields {
    Named(Vec<NamedField>),
    Unnamed(Vec<TypeSyntax>),
    Unit,
}

/// The body of a type definition.
#[derive(Debug, PartialEq, Eq)]
pub enum Data {
    Struct(Fields),
    Enum,
    Union,
}

/// A generic type parameter of the inspected type: its identifier and the
/// bounds already written on it, each bound kept as its path text.
#[derive(Debug, PartialEq, Eq)]
pub struct TypeParam {
    pub ident: String,
    pub bounds: Vec<String>,
}

/// The spec-level shape of a [`TypeParam`].
#[verifier::ext_equal]
pub struct TypeParamV {
    pub ident: Seq<char>,
    pub bounds: Seq<Seq<char>>,
}

impl View for TypeParam {
    type V = TypeParamV;

    open spec fn view(&self) -> TypeParamV {
        TypeParamV { ident: self.ident@, bounds: self.bounds.deep_view() }
    }
}

impl DeepView for TypeParam {
    type V = TypeParamV;

    open spec fn deep_view(&self) -> TypeParamV {
        self.view()
    }
}

/// One generic parameter of the inspected type, in declaration order: a
/// lifetime with its outlives bounds, a type parameter, or a const
/// parameter with its type's text.
#[derive(Debug, PartialEq, Eq)]
pub enum GenericParam {
    Lifetime { ident: String, bounds: Vec<String> },
    Type(TypeParam),
    Const { ident: String, ty: String },
}

/// The spec-level shape of a [`GenericParam`].
#[verifier::ext_equal]
pub enum GenericParamV {
    Lifetime { ident: Seq<char>, bounds: Seq<Seq<char>> },
    Type(TypeParamV),
    Const { ident: Seq<char>, ty: Seq<char> },
}

impl View for GenericParam {
    type V = GenericParamV;

    open spec fn view(&self) -> GenericParamV {
        match self {
            GenericParam::Lifetime { ident, bounds } => GenericParamV::Lifetime {
                ident: ident@,
                bounds: bounds.deep_view(),
            },
            GenericParam::Type(tp) => GenericParamV::Type(tp@),
            GenericParam::Const { ident, ty } => GenericParamV::Const {
                ident: ident@,
                ty: ty@,
            },
        }
    }
}

impl DeepView for GenericParam {
    type V = GenericParamV;

    open spec fn deep_view(&self) -> GenericParamV {
        self.view()
    }
}

/// The generics of the inspected type: every parameter, in order, and the
/// where clause's predicates as text, if the definition carries one.
#[derive(Debug, PartialEq, Eq)]
pub struct Generics {
    pub params: Vec<GenericParam>,
    pub where_clause: Option<String>,
}

/// The spec-level shape of a [`Generics`].
#[verifier::ext_equal]
pub struct GenericsV {
    pub params: Seq<GenericParamV>,
    pub where_clause: Option<Seq<char>>,
}

impl View for Generics {
    type V = GenericsV;

    open spec fn view(&self) -> GenericsV {
        GenericsV {
            params: self.params.deep_view(),
            where_clause: match self.where_clause {
                Some(w) => Some(w@),
                None => None,
            },
        }
    }
}

/// A whole type definition handed to the generation engine.
#[derive(Debug, PartialEq, Eq)]
pub struct DeriveInput {
    pub ident: String,
    pub generics: Generics,
    pub data: Data,
}

/// The spec-level shape of a [`Diag`].
#[verifier::ext_equal]
pub enum DiagV {
    UnknownAttribute { field: Seq<char>, key: Seq<char> },
    DuplicateAttribute { field: Seq<char>, key: Seq<char> },
    MalformedValue { field: Seq<char>, key: Seq<char> },
    UnresolvedHandler { field: Seq<char>, handler: Seq<char> },
    EnumOrUnionUnsupported,
    UnitUnsupported,
}

/// A diagnostic reported by generation. Every failure of the engine is one
/// of these; generation never panics.
#[derive(Debug, PartialEq, Eq)]
pub enum Diag {
    /// An annotation key that the policy does not know.
    UnknownAttribute { field: String, key: String },
    /// The same annotation key written twice on one field.
    DuplicateAttribute { field: String, key: String },
    /// An annotation value of the wrong kind (e.g. a non-numeric `min`).
    MalformedValue { field: String, key: String },
    /// A custom-handler reference that does not parse as a function path.
    UnresolvedHandler { field: String, handler: String },
    /// The type definition is an enum or a union.
    EnumOrUnionUnsupported,
    /// The type definition is a unit struct, with no fields to inspect.
    UnitUnsupported,
}

impl View for Diag {
    type V = DiagV;

    open spec fn view(&self) -> DiagV {
        match self {
            Diag::UnknownAttribute { field, key } => DiagV::UnknownAttribute {
                field: field@,
                key: key@,
            },
            Diag::DuplicateAttribute { field, key } => DiagV::DuplicateAttribute {
                field: field@,
                key: key@,
            },
            Diag::MalformedValue { field, key } => DiagV::MalformedValue {
                field: field@,
                key: key@,
            },
            Diag::UnresolvedHandler { field, handler } => DiagV::UnresolvedHandler {
                field: field@,
                handler: handler@,
            },
            Diag::EnumOrUnionUnsupported => DiagV::EnumOrUnionUnsupported,
            Diag::UnitUnsupported => DiagV::UnitUnsupported,
        }
    }
}

impl Diag {
    /// The text of the diagnostic.
    pub open spec fn spec_message(&self) -> Seq<char> {
        match self {
            Diag::UnknownAttribute { field, key } => "unknown attribute `"@ + key@
                + "` on field `"@ + field@ + "`"@,
            Diag::DuplicateAttribute { field, key } => "duplicate attribute `"@ + key@
                + "` on field `"@ + field@ + "`"@,
            Diag::MalformedValue { field, key } => "malformed value for attribute `"@ + key@
                + "` on field `"@ + field@ + "`"@,
            Diag::UnresolvedHandler { field, handler } => "could not resolve function `"@
                + handler@ + "` for field `"@ + field@ + "`"@,
            Diag::EnumOrUnionUnsupported => "enums and unions are not supported"@,
            Diag::UnitUnsupported => "unit structs cannot be inspected"@,
        }
    }

    /// Renders the diagnostic as one line of text.
    pub fn message(&self) -> (r: String)
        ensures
            r@ == self.spec_message(),
    {
        match self {
            Diag::UnknownAttribute { field, key } => {
                let mut s = String::from_str("unknown attribute `");
                s.append(key.as_str());
                s.append("` on field `");
                s.append(field.as_str());
                s.append("`");
                s
            },
            Diag::DuplicateAttribute { field, key } => {
                let mut s = String::from_str("duplicate attribute `");
                s.append(key.as_str());
                s.append("` on field `");
                s.append(field.as_str());
                s.append("`");
                s
            },
            Diag::MalformedValue { field, key } => {
                let mut s = String::from_str("malformed value for attribute `");
                s.append(key.as_str());
                s.append("` on field `");
                s.append(field.as_str());
                s.append("`");
                s
            },
            Diag::UnresolvedHandler { field, handler } => {
                let mut s = String::from_str("could not resolve function `");
                s.append(handler.as_str());
                s.append("` for field `");
                s.append(field.as_str());
                s.append("`");
                s
            },
            Diag::EnumOrUnionUnsupported => String::from_str(
                "enums and unions are not supported",
            ),
            Diag::UnitUnsupported => String::from_str("unit structs cannot be inspected"),
        }
    }
}

} // verus!
