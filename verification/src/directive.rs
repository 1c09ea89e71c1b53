//! Generation directives: for each visible field and mode the dispatch
//! engine chooses exactly one directive, and each directive renders as one
//! fragment of generated code.

use vstd::prelude::*;

use crate::decimal::dec_of;
use crate::decimal::usize_dec;

verus! {

/// How a field is reached in the generated code: by its identifier
/// (`self.speed`) or by its tuple position (`self.0`).
#[derive(Debug, PartialEq, Eq)]
pub enum FieldTarget {
    Named(String),
    Index(usize),
}

/// The spec-level shape of a [`FieldTarget`].
#[verifier::ext_equal]
pub enum FieldTargetV {
    Named(Seq<char>),
    Index(int),
}

impl View for FieldTarget {
    type V = FieldTargetV;

    open spec fn view(&self) -> FieldTargetV {
        match self {
            FieldTarget::Named(s) => FieldTargetV::Named(s@),
            FieldTarget::Index(i) => FieldTargetV::Index(*i as int),
        }
    }
}

impl DeepView for FieldTarget {
    type V = FieldTargetV;

    open spec fn deep_view(&self) -> FieldTargetV {
        self.view()
    }
}

/// One generation directive. `name` is always the label text shown for the
/// field; `field` the identifier of the struct member the call touches.
#[derive(Debug, PartialEq, Eq)]
pub enum Directive {
    /// Nothing is emitted (hidden fields; numeric fields barred from edit).
    Empty,
    /// A strong (emphasized) label carrying the whole type's label.
    StrongLabel,
    /// A call to a custom edit handler with a mutable reference.
    CustomMut { func: String, field: String, name: String },
    /// A call to a custom display handler with an immutable reference.
    CustomRef { func: String, field: String, name: String },
    /// A bounded numeric range input over `[min, max]`.
    SliderCall { field: String, name: String, min: String, max: String },
    /// An unbounded free-form numeric input.
    DragCall { field: String, name: String },
    /// A multi-row text edit box.
    MultilineCall { field: String, name: String },
    /// A single-row text edit box.
    SinglelineCall { field: String, name: String },
    /// The generic display half of the two-mode contract.
    InspectCall { target: FieldTarget, name: String },
    /// The generic edit half of the two-mode contract.
    InspectMutCall { target: FieldTarget, name: String },
}

/// The spec-level shape of a [`Directive`].
#[verifier::ext_equal]
pub enum DirectiveV {
    Empty,
    StrongLabel,
    CustomMut { func: Seq<char>, field: Seq<char>, name: Seq<char> },
    CustomRef { func: Seq<char>, field: Seq<char>, name: Seq<char> },
    SliderCall { field: Seq<char>, name: Seq<char>, min: Seq<char>, max: Seq<char> },
    DragCall { field: Seq<char>, name: Seq<char> },
    MultilineCall { field: Seq<char>, name: Seq<char> },
    SinglelineCall { field: Seq<char>, name: Seq<char> },
    InspectCall { target: FieldTargetV, name: Seq<char> },
    InspectMutCall { target: FieldTargetV, name: Seq<char> },
}

impl View for Directive {
    type V = DirectiveV;

    open spec fn view(&self) -> DirectiveV {
        match self {
            Directive::Empty => DirectiveV::Empty,
            Directive::StrongLabel => DirectiveV::StrongLabel,
            Directive::CustomMut { func, field, name } => DirectiveV::CustomMut {
                func: func@,
                field: field@,
                name: name@,
            },
            Directive::CustomRef { func, field, name } => DirectiveV::CustomRef {
                func: func@,
                field: field@,
                name: name@,
            },
            Directive::SliderCall { field, name, min, max } => DirectiveV::SliderCall {
                field: field@,
                name: name@,
                min: min@,
                max: max@,
            },
            Directive::DragCall { field, name } => DirectiveV::DragCall {
                field: field@,
                name: name@,
            },
            Directive::MultilineCall { field, name } => DirectiveV::MultilineCall {
                field: field@,
                name: name@,
            },
            Directive::SinglelineCall { field, name } => DirectiveV::SinglelineCall {
                field: field@,
                name: name@,
            },
            Directive::InspectCall { target, name } => DirectiveV::InspectCall {
                target: target@,
                name: name@,
            },
            Directive::InspectMutCall { target, name } => DirectiveV::InspectMutCall {
                target: target@,
                name: name@,
            },
        }
    }
}

impl DeepView for Directive {
    type V = DirectiveV;

    open spec fn deep_view(&self) -> DirectiveV {
        self.view()
    }
}

/// One character as it stands inside a generated string literal: quotes,
/// backslashes and the common control characters are escaped, everything
/// else stands as it is.
pub open spec fn escaped_char(c: char) -> Seq<char> {
    if c == '\\' {
        seq!['\\', '\\']
    } else if c == '"' {
        seq!['\\', '"']
    } else if c == '\n' {
        seq!['\\', 'n']
    } else if c == '\r' {
        seq!['\\', 'r']
    } else if c == '\t' {
        seq!['\\', 't']
    } else {
        seq![c]
    }
}

/// Text as it stands inside a generated string literal.
pub open spec fn escaped(s: Seq<char>) -> Seq<char>
    decreases s.len(),
{
    if s.len() == 0 {
        Seq::empty()
    } else {
        escaped(s.drop_last()) + escaped_char(s.last())
    }
}

/// Unfolds [`escaped`] by one character of a prefix.
proof fn lemma_escaped_step(s: Seq<char>, i: int)
    requires
        0 <= i < s.len(),
    ensures
        escaped(s.subrange(0, i + 1)) == escaped(s.subrange(0, i)) + escaped_char(s[i]),
{
    assert(s.subrange(0, i + 1).drop_last() =~= s.subrange(0, i));
    assert(s.subrange(0, i + 1).last() == s[i]);
}

/// Renders text for splicing into a generated string literal, as
/// [`escaped`] says.
pub fn escape_text(s: &str) -> (r: String)
    ensures
        r@ == escaped(s@),
{
    let n = s.unicode_len();
    let mut r = String::new();
    let mut i: usize = 0;
    while i < n
        invariant
            i <= n,
            n == s@.len(),
            r@ == escaped(s@.subrange(0, i as int)),
        decreases n - i,
    {
        let c = s.get_char(i);
        if c == '\\' {
            r.append("\\\\");
            proof {
                reveal_strlit("\\\\");
            }
        } else if c == '"' {
            r.append("\\\"");
            proof {
                reveal_strlit("\\\"");
            }
        } else if c == '\n' {
            r.append("\\n");
            proof {
                reveal_strlit("\\n");
            }
        } else if c == '\r' {
            r.append("\\r");
            proof {
                reveal_strlit("\\r");
            }
        } else if c == '\t' {
            r.append("\\t");
            proof {
                reveal_strlit("\\t");
            }
        } else {
            crate::utils::push_char(&mut r, c);
        }
        proof {
            lemma_escaped_step(s@, i as int);
            assert(r@ =~= escaped(s@.subrange(0, i as int + 1)));
        }
        i = i + 1;
    }
    proof {
        assert(s@.subrange(0, s@.len() as int) =~= s@);
    }
    r
}

/// The access-path text of a target: the identifier, or the decimal tuple
/// index.
pub open spec fn target_text(t: FieldTargetV) -> Seq<char> {
    match t {
        FieldTargetV::Named(s) => s,
        FieldTargetV::Index(i) => dec_of(i as nat),
    }
}

/// The code fragment that one directive renders as.
pub open spec fn directive_code(d: DirectiveV) -> Seq<char> {
    match d {
        DirectiveV::Empty => Seq::empty(),
        DirectiveV::StrongLabel => "ui.strong(label);\n"@,
        DirectiveV::CustomMut { func, field, name } => "{ "@ + func + "(&mut self."@ + field
            + ", &\""@ + escaped(name) + "\", ui); }\n"@,
        DirectiveV::CustomRef { func, field, name } => "{ "@ + func + "(&self."@ + field
            + ", &\""@ + escaped(name) + "\", ui); }\n"@,
        DirectiveV::SliderCall { field, name, min, max } =>
            "{ egui_inspect::InspectNumber::inspect_with_slider(&mut self."@ + field + ", &\""@
            + escaped(name) + "\", ui, "@ + min + ", "@ + max + "); }\n"@,
        DirectiveV::DragCall { field, name } =>
            "{ egui_inspect::InspectNumber::inspect_with_drag_value(&mut self."@ + field
            + ", &\""@ + escaped(name) + "\", ui); }\n"@,
        DirectiveV::MultilineCall { field, name } =>
            "{ egui_inspect::InspectString::inspect_mut_multiline(&mut self."@ + field + ", &\""@
            + escaped(name) + "\", ui); }\n"@,
        DirectiveV::SinglelineCall { field, name } =>
            "{ egui_inspect::InspectString::inspect_mut_singleline(&mut self."@ + field
            + ", &\""@ + escaped(name) + "\", ui); }\n"@,
        DirectiveV::InspectCall { target, name } => "{ egui_inspect::EguiInspect::inspect(&self."@
            + target_text(target) + ", &\""@ + escaped(name) + "\", ui); }\n"@,
        DirectiveV::InspectMutCall { target, name } =>
            "{ egui_inspect::EguiInspect::inspect_mut(&mut self."@ + target_text(target)
            + ", &\""@ + escaped(name) + "\", ui); }\n"@,
    }
}

/// The code of a whole directive list, in order.
pub open spec fn body_code(ds: Seq<DirectiveV>) -> Seq<char>
    decreases ds.len(),
{
    if ds.len() == 0 {
        Seq::empty()
    } else {
        body_code(ds.drop_last()) + directive_code(ds.last())
    }
}

impl Directive {
    /// Renders this directive as its code fragment.
    pub fn code(&self) -> (s: String)
        ensures
            s@ == directive_code(self@),
    {
        let s: String = match self {
            Directive::Empty => String::new(),
            Directive::StrongLabel => String::from_str("ui.strong(label);\n"),
            Directive::CustomMut { func, field, name } => {
                let mut s = String::from_str("{ ");
                s.append(func.as_str());
                s.append("(&mut self.");
                s.append(field.as_str());
                s.append(", &\"");
                s.append(escape_text(name.as_str()).as_str());
                s.append("\", ui); }\n");
                s
            },
            Directive::CustomRef { func, field, name } => {
                let mut s = String::from_str("{ ");
                s.append(func.as_str());
                s.append("(&self.");
                s.append(field.as_str());
                s.append(", &\"");
                s.append(escape_text(name.as_str()).as_str());
                s.append("\", ui); }\n");
                s
            },
            Directive::SliderCall { field, name, min, max } => {
                let mut s = String::from_str(
                    "{ egui_inspect::InspectNumber::inspect_with_slider(&mut self.",
                );
                s.append(field.as_str());
                s.append(", &\"");
                s.append(escape_text(name.as_str()).as_str());
                s.append("\", ui, ");
                s.append(min.as_str());
                s.append(", ");
                s.append(max.as_str());
                s.append("); }\n");
                s
            },
            Directive::DragCall { field, name } => {
                let mut s = String::from_str(
                    "{ egui_inspect::InspectNumber::inspect_with_drag_value(&mut self.",
                );
                s.append(field.as_str());
                s.append(", &\"");
                s.append(escape_text(name.as_str()).as_str());
                s.append("\", ui); }\n");
                s
            },
            Directive::MultilineCall { field, name } => {
                let mut s = String::from_str(
                    "{ egui_inspect::InspectString::inspect_mut_multiline(&mut self.",
                );
                s.append(field.as_str());
                s.append(", &\"");
                s.append(escape_text(name.as_str()).as_str());
                s.append("\", ui); }\n");
                s
            },
            Directive::SinglelineCall { field, name } => {
                let mut s = String::from_str(
                    "{ egui_inspect::InspectString::inspect_mut_singleline(&mut self.",
                );
                s.append(field.as_str());
                s.append(", &\"");
                s.append(escape_text(name.as_str()).as_str());
                s.append("\", ui); }\n");
                s
            },
            Directive::InspectCall { target, name } => {
                let mut s = String::from_str("{ egui_inspect::EguiInspect::inspect(&self.");
                match target {
                    FieldTarget::Named(f) => s.append(f.as_str()),
                    FieldTarget::Index(i) => s.append(usize_dec(*i).as_str()),
                }
                s.append(", &\"");
                s.append(escape_text(name.as_str()).as_str());
                s.append("\", ui); }\n");
                s
            },
            Directive::InspectMutCall { target, name } => {
                let mut s = String::from_str(
                    "{ egui_inspect::EguiInspect::inspect_mut(&mut self.",
                );
                match target {
                    FieldTarget::Named(f) => s.append(f.as_str()),
                    FieldTarget::Index(i) => s.append(usize_dec(*i).as_str()),
                }
                s.append(", &\"");
                s.append(escape_text(name.as_str()).as_str());
                s.append("\", ui); }\n");
                s
            },
        };
        assert(s@ =~= directive_code(self@));
        s
    }
}

/// Renders a directive list as the body of one generated procedure.
pub fn directives_code(ds: &Vec<Directive>) -> (s: String)
    ensures
        s@ == body_code(ds.deep_view()),
{
    let mut s = String::new();
    let mut i: usize = 0;
    while i < ds.len()
        invariant
            i <= ds.len(),
            s@ == body_code(ds.deep_view().subrange(0, i as int)),
        decreases ds.len() - i,
    {
        let piece = ds[i].code();
        s.append(piece.as_str());
        proof {
            let dv = ds.deep_view();
            assert(dv.subrange(0, i + 1 as int).drop_last() =~= dv.subrange(0, i as int));
            assert(dv.subrange(0, i + 1 as int).last() == dv[i as int]);
        }
        i = i + 1;
    }
    proof {
        assert(ds.deep_view().subrange(0, ds.len() as int) =~= ds.deep_view());
    }
    s
}

} // verus!
