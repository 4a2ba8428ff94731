//! Runtime values and their type names.
//!
//! A `ValueBind` pairs a runtime value with its type name; the name is
//! derived from the value's shape, so the pair can never disagree. Type
//! names are the words `int`, `float` and `bool`, compared
//! case-insensitively at every type-check site.

use vstd::prelude::*;
use vstd::string::StrSliceExecFns;
use vstd::string::StringExecFns;

verus! {

/// A runtime value: an integer, the bit pattern of an IEEE double, or a
/// boolean.
#[derive(Clone, Copy, Debug, PartialEq, Eq, Structural)]
pub enum VarValue {
    Int(i128),
    Float(u64),
    Bool(bool),
}

/// A value paired with its type name. The name is derived from the value,
/// so it always matches the value's runtime shape.
#[derive(Clone, Copy, Debug, PartialEq, Eq, Structural)]
pub struct ValueBind {
    pub val: VarValue,
}

/// The canonical type name of a value.
pub open spec fn val_ty_name(v: VarValue) -> Seq<char> {
    match v {
        VarValue::Int(_) => "int"@,
        VarValue::Float(_) => "float"@,
        VarValue::Bool(_) => "bool"@,
    }
}

impl ValueBind {
    /// Wrap a value with its (derived) type name.
    pub fn vb(val: VarValue) -> (r: ValueBind)
        ensures
            r.val == val,
    {
        ValueBind { val }
    }

    /// The type name of the wrapped value: `int`, `float` or `bool`.
    pub fn get_type(&self) -> (r: String)
        ensures
            r@ == val_ty_name(self.val),
    {
        match self.val {
            VarValue::Int(_) => String::from_str("int"),
            VarValue::Float(_) => String::from_str("float"),
            VarValue::Bool(_) => String::from_str("bool"),
        }
    }

    /// The wrapped value.
    pub fn get_value(&self) -> (r: VarValue)
        ensures
            r == self.val,
    {
        self.val
    }
}

/// The failure taxonomy of the evaluator, carried through one propagation
/// channel. `ReturnValue` is the `Return` control transfer: it unwinds like
/// an error and is consumed at the nearest function-call boundary.
/// `StackLimit` reports exhaustion of the evaluation budget that bounds
/// call depth and loop iterations.
#[derive(Clone, Copy, Debug, PartialEq, Eq, Structural)]
pub enum RuntimeErr {
    TypeMismatch,
    Unknown,
    VarUsedBeforeDefine,
    DivideByZero,
    FunctionUndefined,
    ArityMismatch,
    MissingReturn,
    StackLimit,
    ReturnValue(ValueBind),
}

/// ASCII case folding of one character, as a code point.
pub open spec fn fold_char(c: char) -> u32 {
    if 65 <= c as u32 && c as u32 <= 90 {
        (c as u32 + 32) as u32
    } else {
        c as u32
    }
}

/// Case-insensitive equality of two character sequences (ASCII folding).
pub open spec fn eqic(a: Seq<char>, b: Seq<char>) -> bool {
    a.len() == b.len() && (forall|i: int| 0 <= i < a.len() ==> fold_char(a[i]) == fold_char(b[i]))
}

/// ASCII case folding of one character, executable.
fn fold_char_x(c: char) -> (r: u32)
    ensures
        r == fold_char(c),
{
    let u = c as u32;
    if 65 <= u && u <= 90 {
        u + 32
    } else {
        u
    }
}

/// Case-insensitive string comparison with ASCII folding, as used at every
/// type-check site.
pub fn eq_ignore_case(a: &str, b: &str) -> (r: bool)
    ensures
        r == eqic(a@, b@),
{
    let alen = a.unicode_len();
    let blen = b.unicode_len();
    if alen != blen {
        return false;
    }
    let mut i: usize = 0;
    while i < alen
        invariant
            alen == a@.len(),
            blen == b@.len(),
            alen == blen,
            i <= alen,
            forall|j: int| 0 <= j < i ==> fold_char(a@[j]) == fold_char(b@[j]),
        decreases alen - i,
    {
        let ca = a.get_char(i);
        let cb = b.get_char(i);
        if fold_char_x(ca) != fold_char_x(cb) {
            assert(fold_char(a@[i as int]) != fold_char(b@[i as int]));
            return false;
        }
        i = i + 1;
    }
    true
}

/// Whether the declared type name `t` names the type of value `v`.
pub open spec fn ty_name_matches(t: Seq<char>, v: VarValue) -> bool {
    eqic(t, val_ty_name(v))
}

/// Case-insensitive check of a declared type name against a value's type.
pub fn check_ty_name(t: &str, v: &VarValue) -> (r: bool)
    ensures
        r == ty_name_matches(t@, *v),
{
    match v {
        VarValue::Int(_) => eq_ignore_case(t, "int"),
        VarValue::Float(_) => eq_ignore_case(t, "float"),
        VarValue::Bool(_) => eq_ignore_case(t, "bool"),
    }
}

/// Whether two values have the same type name.
pub open spec fn same_ty(v1: VarValue, v2: VarValue) -> bool {
    val_ty_name(v1) == val_ty_name(v2)
}

/// Whether two runtime values carry the same type.
pub fn type_dec(v1: VarValue, v2: VarValue) -> (r: bool)
    ensures
        r == same_ty(v1, v2),
{
    let r = match v1 {
        VarValue::Int(_) => matches!(v2, VarValue::Int(_)),
        VarValue::Float(_) => matches!(v2, VarValue::Float(_)),
        VarValue::Bool(_) => matches!(v2, VarValue::Bool(_)),
    };
    proof {
        lemma_ty_names_distinct();
    }
    r
}

/// The three canonical type names differ pairwise.
pub proof fn lemma_ty_names_distinct()
    ensures
        "int"@ != "float"@,
        "int"@ != "bool"@,
        "float"@ != "bool"@,
{
    reveal_strlit("int");
    reveal_strlit("float");
    reveal_strlit("bool");
    assert("int"@.len() == 3);
    assert("float"@.len() == 5);
    assert("bool"@.len() == 4);
}

} // verus!
