//! The attribute resolver: turns a field's raw annotation entries into a
//! resolved configuration record, applying the documented defaults for
//! everything that was not written, and reporting a diagnostic for the
//! first entry that cannot be accepted.

use vstd::prelude::*;

use crate::model::AttrEntry;
use crate::model::AttrValue;
use crate::model::Diag;
use crate::model::DiagV;
use crate::model::NamedField;

verus! {

/// Whether a string parses as a Rust function path. Custom-handler
/// references are accepted exactly when they do.
pub uninterp spec fn is_rust_path(s: Seq<char>) -> bool;

/// Relies on syn::parse_str::<syn::Path>: it parses the whole string as a
/// Rust path or reports an error, and its outcome depends on the string
/// alone.
#[verifier::external_body]
fn parses_as_path(s: &str) -> (r: bool)
    ensures
        r == is_rust_path(s@),
{
    syn::parse_str::<syn::Path>(s).is_ok()
}

/// The resolved configuration of one field. Numeric bounds are carried as
/// the literal text that generation splices into the emitted code.
#[derive(Debug, PartialEq, Eq)]
pub struct AttributeArgs {
    /// Label override; the field's own name is used when absent.
    pub name: Option<String>,
    /// Excludes the field from both generated procedures.
    pub hide: bool,
    /// Bars the edit-mode widgets for the field.
    pub no_edit: bool,
    /// Chooses a bounded range input over a free-form one for numbers.
    pub slider: bool,
    /// Lower bound text for the range input.
    pub min: String,
    /// Upper bound text for the range input.
    pub max: String,
    /// Chooses a multi-row edit box for owned text.
    pub multiline: bool,
    /// Custom handler path for display mode.
    pub custom_func: Option<String>,
    /// Custom handler path for edit mode.
    pub custom_func_mut: Option<String>,
}

/// The spec-level shape of an [`AttributeArgs`].
#[verifier::ext_equal]
pub struct ArgsModel {
    pub name: Option<Seq<char>>,
    pub hide: bool,
    pub no_edit: bool,
    pub slider: bool,
    pub min: Seq<char>,
    pub max: Seq<char>,
    pub multiline: bool,
    pub custom_func: Option<Seq<char>>,
    pub custom_func_mut: Option<Seq<char>>,
}

impl View for AttributeArgs {
    type V = ArgsModel;

    open spec fn view(&self) -> ArgsModel {
        ArgsModel {
            name: match self.name {
                Some(s) => Some(s@),
                None => None,
            },
            hide: self.hide,
            no_edit: self.no_edit,
            slider: self.slider,
            min: self.min@,
            max: self.max@,
            multiline: self.multiline,
            custom_func: match self.custom_func {
                Some(s) => Some(s@),
                None => None,
            },
            custom_func_mut: match self.custom_func_mut {
                Some(s) => Some(s@),
                None => None,
            },
        }
    }
}

/// The documented defaults: visible, editable, bounded numeric input over
/// `[0.0, 100.0]`, single-row text, no overrides.
pub open spec fn default_args() -> ArgsModel {
    ArgsModel {
        name: None,
        hide: false,
        no_edit: false,
        slider: true,
        min: "0.0"@,
        max: "100.0"@,
        multiline: false,
        custom_func: None,
        custom_func_mut: None,
    }
}

impl Default for AttributeArgs {
    /// The configuration of a field with no annotations at all.
    fn default() -> (r: Self)
        ensures
            r@ == default_args(),
    {
        AttributeArgs {
            name: None,
            hide: false,
            no_edit: false,
            slider: true,
            min: String::from_str("0.0"),
            max: String::from_str("100.0"),
            multiline: false,
            custom_func: None,
            custom_func_mut: None,
        }
    }
}

/// The label a field is shown under: the configured override, or the
/// field's own name.
pub open spec fn display_name(f: NamedField, m: ArgsModel) -> Seq<char> {
    match m.name {
        Some(n) => n,
        None => f.ident@,
    }
}

/// Reads the label a field is shown under, as [`display_name`] says.
pub fn display_name_of(f: &NamedField, a: &AttributeArgs) -> (s: String)
    ensures
        s@ == display_name(*f, a@),
{
    match &a.name {
        Some(n) => n.clone(),
        None => f.ident.clone(),
    }
}

/// The flag-valued annotation keys.
pub open spec fn is_flag_key(k: Seq<char>) -> bool {
    k == "hide"@ || k == "no_edit"@ || k == "slider"@ || k == "multiline"@
}

/// The numeric-valued annotation keys.
pub open spec fn is_num_key(k: Seq<char>) -> bool {
    k == "min"@ || k == "max"@
}

/// The handler-reference annotation keys.
pub open spec fn is_handler_key(k: Seq<char>) -> bool {
    k == "custom_func"@ || k == "custom_func_mut"@
}

/// Every annotation key the policy knows.
pub open spec fn known_key(k: Seq<char>) -> bool {
    k == "name"@ || is_flag_key(k) || is_num_key(k) || is_handler_key(k)
}

/// The boolean a flag-valued entry sets: a bare flag means true.
pub open spec fn flag_val(v: AttrValue) -> bool {
    match v {
        AttrValue::Flag => true,
        AttrValue::BoolLit(b) => b,
        _ => vstd::pervasive::arbitrary(),
    }
}

/// The text a numeric-valued entry carries.
pub open spec fn num_text(v: AttrValue) -> Seq<char> {
    match v {
        AttrValue::NumLit(s) => s@,
        _ => vstd::pervasive::arbitrary(),
    }
}

/// The text a string-valued entry carries.
pub open spec fn str_text(v: AttrValue) -> Seq<char> {
    match v {
        AttrValue::StrLit(s) => s@,
        _ => vstd::pervasive::arbitrary(),
    }
}

/// An ASCII decimal digit.
pub open spec fn is_ascii_digit(c: char) -> bool {
    48 <= c as u32 && c as u32 <= 57
}

/// The scanner's position while reading a numeric literal left to right.
pub enum NumScan {
    AtStart,
    AfterSign,
    IntDigits,
    AfterDot,
    FracDigits,
    AfterExpMark,
    AfterExpSign,
    ExpDigits,
    Rejected,
}

/// One step of the numeric-literal scanner.
pub open spec fn num_scan_step(st: NumScan, c: char) -> NumScan {
    match st {
        NumScan::AtStart => if c == '-' {
            NumScan::AfterSign
        } else if is_ascii_digit(c) {
            NumScan::IntDigits
        } else {
            NumScan::Rejected
        },
        NumScan::AfterSign => if is_ascii_digit(c) {
            NumScan::IntDigits
        } else {
            NumScan::Rejected
        },
        NumScan::IntDigits => if is_ascii_digit(c) {
            NumScan::IntDigits
        } else if c == '.' {
            NumScan::AfterDot
        } else if c == 'e' || c == 'E' {
            NumScan::AfterExpMark
        } else {
            NumScan::Rejected
        },
        NumScan::AfterDot => if is_ascii_digit(c) {
            NumScan::FracDigits
        } else if c == 'e' || c == 'E' {
            NumScan::AfterExpMark
        } else {
            NumScan::Rejected
        },
        NumScan::FracDigits => if is_ascii_digit(c) {
            NumScan::FracDigits
        } else if c == 'e' || c == 'E' {
            NumScan::AfterExpMark
        } else {
            NumScan::Rejected
        },
        NumScan::AfterExpMark => if c == '+' || c == '-' {
            NumScan::AfterExpSign
        } else if is_ascii_digit(c) {
            NumScan::ExpDigits
        } else {
            NumScan::Rejected
        },
        NumScan::AfterExpSign => if is_ascii_digit(c) {
            NumScan::ExpDigits
        } else {
            NumScan::Rejected
        },
        NumScan::ExpDigits => if is_ascii_digit(c) {
            NumScan::ExpDigits
        } else {
            NumScan::Rejected
        },
        NumScan::Rejected => NumScan::Rejected,
    }
}

/// Where the scanner stands after reading the whole text.
pub open spec fn num_scan(s: Seq<char>) -> NumScan
    decreases s.len(),
{
    if s.len() == 0 {
        NumScan::AtStart
    } else {
        num_scan_step(num_scan(s.drop_last()), s.last())
    }
}

/// Whether text is the decimal writing of a number, as a numeric
/// annotation value must be: an optional leading minus, integer digits,
/// an optional fraction (`12.`, `12.5`), and an optional exponent part
/// (`1e3`, `2.5E-4`).
pub open spec fn is_decimal_text(s: Seq<char>) -> bool {
    num_scan(s) is IntDigits || num_scan(s) is AfterDot || num_scan(s) is FracDigits || num_scan(
        s,
    ) is ExpDigits
}

/// Unfolds [`num_scan`] by one character of a prefix.
proof fn lemma_num_scan_step(s: Seq<char>, i: int)
    requires
        0 <= i < s.len(),
    ensures
        num_scan(s.subrange(0, i + 1)) == num_scan_step(num_scan(s.subrange(0, i)), s[i]),
{
    assert(s.subrange(0, i + 1).drop_last() =~= s.subrange(0, i));
    assert(s.subrange(0, i + 1).last() == s[i]);
}

/// Whether a character is an ASCII decimal digit.
fn digit_check(c: char) -> (r: bool)
    ensures
        r == is_ascii_digit(c),
{
    let u = c as u32;
    48 <= u && u <= 57
}

/// Checks that text is the decimal writing of a number, as
/// [`is_decimal_text`] says.
pub fn is_decimal_string(s: &str) -> (r: bool)
    ensures
        r == is_decimal_text(s@),
{
    let n = s.unicode_len();
    let mut st = NumScan::AtStart;
    let mut i: usize = 0;
    while i < n
        invariant
            i <= n,
            n == s@.len(),
            st == num_scan(s@.subrange(0, i as int)),
        decreases n - i,
    {
        let c = s.get_char(i);
        st = if digit_check(c) {
            match st {
                NumScan::AtStart => NumScan::IntDigits,
                NumScan::AfterSign => NumScan::IntDigits,
                NumScan::IntDigits => NumScan::IntDigits,
                NumScan::AfterDot => NumScan::FracDigits,
                NumScan::FracDigits => NumScan::FracDigits,
                NumScan::AfterExpMark => NumScan::ExpDigits,
                NumScan::AfterExpSign => NumScan::ExpDigits,
                NumScan::ExpDigits => NumScan::ExpDigits,
                NumScan::Rejected => NumScan::Rejected,
            }
        } else if c == '-' {
            match st {
                NumScan::AtStart => NumScan::AfterSign,
                NumScan::AfterExpMark => NumScan::AfterExpSign,
                _ => NumScan::Rejected,
            }
        } else if c == '.' {
            match st {
                NumScan::IntDigits => NumScan::AfterDot,
                _ => NumScan::Rejected,
            }
        } else if c == 'e' || c == 'E' {
            match st {
                NumScan::IntDigits => NumScan::AfterExpMark,
                NumScan::AfterDot => NumScan::AfterExpMark,
                NumScan::FracDigits => NumScan::AfterExpMark,
                _ => NumScan::Rejected,
            }
        } else if c == '+' {
            match st {
                NumScan::AfterExpMark => NumScan::AfterExpSign,
                _ => NumScan::Rejected,
            }
        } else {
            NumScan::Rejected
        };
        proof {
            lemma_num_scan_step(s@, i as int);
        }
        i = i + 1;
    }
    proof {
        assert(s@.subrange(0, s@.len() as int) =~= s@);
    }
    match st {
        NumScan::IntDigits => true,
        NumScan::AfterDot => true,
        NumScan::FracDigits => true,
        NumScan::ExpDigits => true,
        _ => false,
    }
}

/// Whether an entry's value has the kind its key expects; a numeric key
/// additionally demands decimal text.
pub open spec fn value_kind_ok(e: AttrEntry) -> bool {
    if is_flag_key(e.key@) {
        e.value is Flag || e.value is BoolLit
    } else if is_num_key(e.key@) {
        e.value is NumLit && is_decimal_text(num_text(e.value))
    } else {
        e.value is StrLit
    }
}

/// The diagnostic one entry raises, if any: an unknown key, a repeated key,
/// a value of the wrong kind, or a handler reference that is no path.
pub open spec fn entry_diag(field: Seq<char>, e: AttrEntry, dup: bool) -> Option<DiagV> {
    if !known_key(e.key@) {
        Some(DiagV::UnknownAttribute { field, key: e.key@ })
    } else if dup {
        Some(DiagV::DuplicateAttribute { field, key: e.key@ })
    } else if !value_kind_ok(e) {
        Some(DiagV::MalformedValue { field, key: e.key@ })
    } else if is_handler_key(e.key@) && !is_rust_path(str_text(e.value)) {
        Some(DiagV::UnresolvedHandler { field, handler: str_text(e.value) })
    } else {
        None
    }
}

/// The configuration after accepting one entry.
pub open spec fn apply_entry(m: ArgsModel, e: AttrEntry) -> ArgsModel {
    let k = e.key@;
    if k == "name"@ {
        ArgsModel { name: Some(str_text(e.value)), ..m }
    } else if k == "hide"@ {
        ArgsModel { hide: flag_val(e.value), ..m }
    } else if k == "no_edit"@ {
        ArgsModel { no_edit: flag_val(e.value), ..m }
    } else if k == "slider"@ {
        ArgsModel { slider: flag_val(e.value), ..m }
    } else if k == "multiline"@ {
        ArgsModel { multiline: flag_val(e.value), ..m }
    } else if k == "min"@ {
        ArgsModel { min: num_text(e.value), ..m }
    } else if k == "max"@ {
        ArgsModel { max: num_text(e.value), ..m }
    } else if k == "custom_func"@ {
        ArgsModel { custom_func: Some(str_text(e.value)), ..m }
    } else {
        ArgsModel { custom_func_mut: Some(str_text(e.value)), ..m }
    }
}

/// Whether some earlier entry already used key `k`.
pub open spec fn dup_in(es: Seq<AttrEntry>, k: Seq<char>) -> bool {
    exists|j: int| 0 <= j < es.len() && es[j].key@ == k
}

/// Resolution of a whole entry list, left to right: the defaults, updated
/// entry by entry, stopping at the first entry that raises a diagnostic.
pub open spec fn resolve_rec(field: Seq<char>, es: Seq<AttrEntry>) -> Result<ArgsModel, DiagV>
    decreases es.len(),
{
    if es.len() == 0 {
        Ok(default_args())
    } else {
        match resolve_rec(field, es.drop_last()) {
            Err(d) => Err(d),
            Ok(m) => {
                let e = es.last();
                match entry_diag(field, e, dup_in(es.drop_last(), e.key@)) {
                    Some(d) => Err(d),
                    None => Ok(apply_entry(m, e)),
                }
            },
        }
    }
}

/// Unfolds [`resolve_rec`] by one entry of a prefix.
proof fn lemma_resolve_step(field: Seq<char>, es: Seq<AttrEntry>, i: int)
    requires
        0 <= i < es.len(),
    ensures
        resolve_rec(field, es.subrange(0, i + 1)) == match resolve_rec(field, es.subrange(0, i)) {
            Err(d) => Err(d),
            Ok(m) => match entry_diag(field, es[i], dup_in(es.subrange(0, i), es[i].key@)) {
                Some(d) => Err::<ArgsModel, DiagV>(d),
                None => Ok(apply_entry(m, es[i])),
            },
        },
{
    assert(es.subrange(0, i + 1).drop_last() =~= es.subrange(0, i));
    assert(es.subrange(0, i + 1).last() == es[i]);
}

/// A diagnostic raised on a prefix stands for the whole list.
proof fn lemma_err_persists(field: Seq<char>, es: Seq<AttrEntry>, i: int, j: int)
    requires
        0 <= i <= j <= es.len(),
        resolve_rec(field, es.subrange(0, i)) is Err,
    ensures
        resolve_rec(field, es.subrange(0, j)) == resolve_rec(field, es.subrange(0, i)),
    decreases j - i,
{
    if j > i {
        lemma_err_persists(field, es, i, j - 1);
        lemma_resolve_step(field, es, j - 1);
    }
}

/// A diagnostic raised at entry `i` is the result for the whole list.
proof fn lemma_err_final(field: Seq<char>, es: Seq<AttrEntry>, i: int)
    requires
        0 <= i < es.len(),
        resolve_rec(field, es.subrange(0, i + 1)) is Err,
    ensures
        resolve_rec(field, es) == resolve_rec(field, es.subrange(0, i + 1)),
{
    lemma_err_persists(field, es, i + 1, es.len() as int);
    assert(es.subrange(0, es.len() as int) =~= es);
}

/// The nine annotation keys are pairwise different words.
proof fn lemma_distinct_keys()
    ensures
        "name"@ != "hide"@,
        "name"@ != "no_edit"@,
        "name"@ != "slider"@,
        "name"@ != "multiline"@,
        "name"@ != "min"@,
        "name"@ != "max"@,
        "name"@ != "custom_func"@,
        "name"@ != "custom_func_mut"@,
        "hide"@ != "no_edit"@,
        "hide"@ != "slider"@,
        "hide"@ != "multiline"@,
        "hide"@ != "min"@,
        "hide"@ != "max"@,
        "hide"@ != "custom_func"@,
        "hide"@ != "custom_func_mut"@,
        "no_edit"@ != "slider"@,
        "no_edit"@ != "multiline"@,
        "no_edit"@ != "min"@,
        "no_edit"@ != "max"@,
        "no_edit"@ != "custom_func"@,
        "no_edit"@ != "custom_func_mut"@,
        "slider"@ != "multiline"@,
        "slider"@ != "min"@,
        "slider"@ != "max"@,
        "slider"@ != "custom_func"@,
        "slider"@ != "custom_func_mut"@,
        "multiline"@ != "min"@,
        "multiline"@ != "max"@,
        "multiline"@ != "custom_func"@,
        "multiline"@ != "custom_func_mut"@,
        "min"@ != "max"@,
        "min"@ != "custom_func"@,
        "min"@ != "custom_func_mut"@,
        "max"@ != "custom_func"@,
        "max"@ != "custom_func_mut"@,
        "custom_func"@ != "custom_func_mut"@,
{
    reveal_strlit("name");
    reveal_strlit("hide");
    reveal_strlit("no_edit");
    reveal_strlit("slider");
    reveal_strlit("multiline");
    reveal_strlit("min");
    reveal_strlit("max");
    reveal_strlit("custom_func");
    reveal_strlit("custom_func_mut");
    assert("name"@.len() == 4);
    assert("hide"@.len() == 4);
    assert("no_edit"@.len() == 7);
    assert("slider"@.len() == 6);
    assert("multiline"@.len() == 9);
    assert("min"@.len() == 3);
    assert("max"@.len() == 3);
    assert("custom_func"@.len() == 11);
    assert("custom_func_mut"@.len() == 15);
    assert("name"@[0] == 'n');
    assert("hide"@[0] == 'h');
    assert("min"@[1] == 'i');
    assert("max"@[1] == 'a');
}

/// Reads a flag-valued entry: a bare flag or a boolean literal.
fn flag_of(v: &AttrValue) -> (r: Option<bool>)
    ensures
        match r {
            Some(b) => ((*v) is Flag || (*v) is BoolLit) && b == flag_val(*v),
            None => !((*v) is Flag || (*v) is BoolLit),
        },
{
    match v {
        AttrValue::Flag => Some(true),
        AttrValue::BoolLit(b) => Some(*b),
        _ => None,
    }
}

/// Reads a numeric-valued entry's literal text.
fn num_of(v: &AttrValue) -> (r: Option<String>)
    ensures
        match r {
            Some(s) => (*v) is NumLit && s@ == num_text(*v),
            None => !((*v) is NumLit),
        },
{
    match v {
        AttrValue::NumLit(s) => Some(s.clone()),
        _ => None,
    }
}

/// Reads a string-valued entry's text.
fn str_of(v: &AttrValue) -> (r: Option<String>)
    ensures
        match r {
            Some(s) => (*v) is StrLit && s@ == str_text(*v),
            None => !((*v) is StrLit),
        },
{
    match v {
        AttrValue::StrLit(s) => Some(s.clone()),
        _ => None,
    }
}

/// Builds the duplicate-key diagnostic.
fn dup_diag(field_name: &str, key: &String) -> (d: Diag)
    ensures
        d@ == (DiagV::DuplicateAttribute { field: field_name@, key: key@ }),
{
    Diag::DuplicateAttribute { field: String::from_str(field_name), key: key.clone() }
}

/// Builds the wrong-value-kind diagnostic.
fn malformed_diag(field_name: &str, key: &String) -> (d: Diag)
    ensures
        d@ == (DiagV::MalformedValue { field: field_name@, key: key@ }),
{
    Diag::MalformedValue { field: String::from_str(field_name), key: key.clone() }
}

/// Resolves a field's annotation entries into its configuration.
///
/// Succeeds with exactly the record [`resolve_rec`] gives, or fails with
/// the diagnostic of the first entry that is unknown, repeated, of the
/// wrong value kind, or an unresolvable handler reference.
#[verifier::rlimit(100)]
pub fn from_entries(field_name: &str, entries: &Vec<AttrEntry>) -> (r: Result<
    AttributeArgs,
    Diag,
>)
    ensures
        match r {
            Ok(a) => resolve_rec(field_name@, entries@) == Ok::<ArgsModel, DiagV>(a@),
            Err(d) => resolve_rec(field_name@, entries@) == Err::<ArgsModel, DiagV>(d@),
        },
{
    let mut cur = AttributeArgs::default();
    let mut seen_name = false;
    let mut seen_hide = false;
    let mut seen_no_edit = false;
    let mut seen_slider = false;
    let mut seen_multiline = false;
    let mut seen_min = false;
    let mut seen_max = false;
    let mut seen_custom_func = false;
    let mut seen_custom_func_mut = false;
    let mut i: usize = 0;
    while i < entries.len()
        invariant
            i <= entries.len(),
            resolve_rec(field_name@, entries@.subrange(0, i as int)) == Ok::<ArgsModel, DiagV>(
                cur@,
            ),
            seen_name == dup_in(entries@.subrange(0, i as int), "name"@),
            seen_hide == dup_in(entries@.subrange(0, i as int), "hide"@),
            seen_no_edit == dup_in(entries@.subrange(0, i as int), "no_edit"@),
            seen_slider == dup_in(entries@.subrange(0, i as int), "slider"@),
            seen_multiline == dup_in(entries@.subrange(0, i as int), "multiline"@),
            seen_min == dup_in(entries@.subrange(0, i as int), "min"@),
            seen_max == dup_in(entries@.subrange(0, i as int), "max"@),
            seen_custom_func == dup_in(entries@.subrange(0, i as int), "custom_func"@),
            seen_custom_func_mut == dup_in(entries@.subrange(0, i as int), "custom_func_mut"@),
        decreases entries.len() - i,
    {
        proof {
            lemma_distinct_keys();
            lemma_resolve_step(field_name@, entries@, i as int);
        }
        let ghost prefix = entries@.subrange(0, i as int);
        let ghost prefix1 = entries@.subrange(0, i as int + 1);
        let e = &entries[i];
        let ghost m0 = cur@;
        let key = e.key.as_str();
        if crate::utils::str_eq(key, "name") {
            if seen_name {
                proof {
                    lemma_err_final(field_name@, entries@, i as int);
                }
                return Err(dup_diag(field_name, &e.key));
            }
            match str_of(&e.value) {
                Some(s) => {
                    cur.name = Some(s);
                    seen_name = true;
                },
                None => {
                    proof {
                        lemma_err_final(field_name@, entries@, i as int);
                    }
                    return Err(malformed_diag(field_name, &e.key));
                },
            }
        } else if crate::utils::str_eq(key, "hide") {
            if seen_hide {
                proof {
                    lemma_err_final(field_name@, entries@, i as int);
                }
                return Err(dup_diag(field_name, &e.key));
            }
            match flag_of(&e.value) {
                Some(b) => {
                    cur.hide = b;
                    seen_hide = true;
                },
                None => {
                    proof {
                        lemma_err_final(field_name@, entries@, i as int);
                    }
                    return Err(malformed_diag(field_name, &e.key));
                },
            }
        } else if crate::utils::str_eq(key, "no_edit") {
            if seen_no_edit {
                proof {
                    lemma_err_final(field_name@, entries@, i as int);
                }
                return Err(dup_diag(field_name, &e.key));
            }
            match flag_of(&e.value) {
                Some(b) => {
                    cur.no_edit = b;
                    seen_no_edit = true;
                },
                None => {
                    proof {
                        lemma_err_final(field_name@, entries@, i as int);
                    }
                    return Err(malformed_diag(field_name, &e.key));
                },
            }
        } else if crate::utils::str_eq(key, "slider") {
            if seen_slider {
                proof {
                    lemma_err_final(field_name@, entries@, i as int);
                }
                return Err(dup_diag(field_name, &e.key));
            }
            match flag_of(&e.value) {
                Some(b) => {
                    cur.slider = b;
                    seen_slider = true;
                },
                None => {
                    proof {
                        lemma_err_final(field_name@, entries@, i as int);
                    }
                    return Err(malformed_diag(field_name, &e.key));
                },
            }
        } else if crate::utils::str_eq(key, "multiline") {
            if seen_multiline {
                proof {
                    lemma_err_final(field_name@, entries@, i as int);
                }
                return Err(dup_diag(field_name, &e.key));
            }
            match flag_of(&e.value) {
                Some(b) => {
                    cur.multiline = b;
                    seen_multiline = true;
                },
                None => {
                    proof {
                        lemma_err_final(field_name@, entries@, i as int);
                    }
                    return Err(malformed_diag(field_name, &e.key));
                },
            }
        } else if crate::utils::str_eq(key, "min") {
            if seen_min {
                proof {
                    lemma_err_final(field_name@, entries@, i as int);
                }
                return Err(dup_diag(field_name, &e.key));
            }
            match num_of(&e.value) {
                Some(s) => {
                    if is_decimal_string(s.as_str()) {
                        cur.min = s;
                        seen_min = true;
                    } else {
                        proof {
                            lemma_err_final(field_name@, entries@, i as int);
                        }
                        return Err(malformed_diag(field_name, &e.key));
                    }
                },
                None => {
                    proof {
                        lemma_err_final(field_name@, entries@, i as int);
                    }
                    return Err(malformed_diag(field_name, &e.key));
                },
            }
        } else if crate::utils::str_eq(key, "max") {
            if seen_max {
                proof {
                    lemma_err_final(field_name@, entries@, i as int);
                }
                return Err(dup_diag(field_name, &e.key));
            }
            match num_of(&e.value) {
                Some(s) => {
                    if is_decimal_string(s.as_str()) {
                        cur.max = s;
                        seen_max = true;
                    } else {
                        proof {
                            lemma_err_final(field_name@, entries@, i as int);
                        }
                        return Err(malformed_diag(field_name, &e.key));
                    }
                },
                None => {
                    proof {
                        lemma_err_final(field_name@, entries@, i as int);
                    }
                    return Err(malformed_diag(field_name, &e.key));
                },
            }
        } else if crate::utils::str_eq(key, "custom_func") {
            if seen_custom_func {
                proof {
                    lemma_err_final(field_name@, entries@, i as int);
                }
                return Err(dup_diag(field_name, &e.key));
            }
            match str_of(&e.value) {
                Some(s) => {
                    if parses_as_path(s.as_str()) {
                        cur.custom_func = Some(s);
                        seen_custom_func = true;
                    } else {
                        proof {
                            lemma_err_final(field_name@, entries@, i as int);
                        }
                        return Err(
                            Diag::UnresolvedHandler {
                                field: String::from_str(field_name),
                                handler: s,
                            },
                        );
                    }
                },
                None => {
                    proof {
                        lemma_err_final(field_name@, entries@, i as int);
                    }
                    return Err(malformed_diag(field_name, &e.key));
                },
            }
        } else if crate::utils::str_eq(key, "custom_func_mut") {
            if seen_custom_func_mut {
                proof {
                    lemma_err_final(field_name@, entries@, i as int);
                }
                return Err(dup_diag(field_name, &e.key));
            }
            match str_of(&e.value) {
                Some(s) => {
                    if parses_as_path(s.as_str()) {
                        cur.custom_func_mut = Some(s);
                        seen_custom_func_mut = true;
                    } else {
                        proof {
                            lemma_err_final(field_name@, entries@, i as int);
                        }
                        return Err(
                            Diag::UnresolvedHandler {
                                field: String::from_str(field_name),
                                handler: s,
                            },
                        );
                    }
                },
                None => {
                    proof {
                        lemma_err_final(field_name@, entries@, i as int);
                    }
                    return Err(malformed_diag(field_name, &e.key));
                },
            }
        } else {
            proof {
                lemma_err_final(field_name@, entries@, i as int);
            }
            return Err(
                Diag::UnknownAttribute { field: String::from_str(field_name), key: e.key.clone() },
            );
        }
        proof {
            assert(cur@ =~= apply_entry(m0, entries@[i as int]));
            assert forall|k: Seq<char>| dup_in(prefix1, k) implies dup_in(prefix, k) || entries@[
                i as int
            ].key@ == k by {
                let j = choose|j: int| 0 <= j < prefix1.len() && prefix1[j].key@ == k;
                if j < i as int {
                    assert(prefix[j].key@ == k);
                }
            }
            assert forall|k: Seq<char>| dup_in(prefix, k) implies dup_in(prefix1, k) by {
                let j = choose|j: int| 0 <= j < prefix.len() && prefix[j].key@ == k;
                assert(prefix1[j].key@ == k);
            }
            assert(prefix1[i as int] == entries@[i as int]);
        }
        i = i + 1;
    }
    proof {
        assert(entries@.subrange(0, entries@.len() as int) =~= entries@);
    }
    Ok(cur)
}

} // verus!
