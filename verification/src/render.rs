//! Textual form of values, output lines, state reports and error reports.
//!
//! The evaluator records printed values and the surviving bindings as data;
//! these functions give them the exact text the program's output stream
//! carries, so the surrounding harness only writes lines out.

use vstd::prelude::*;
use vstd::string::StrSliceExecFns;
use vstd::string::StringExecFns;

use crate::float::{f64_text_bits, float_text};
use crate::numfmt::{int_text, int_to_text};
use crate::state::ProgStates;
use crate::value::{val_ty_name, RuntimeErr, ValueBind, VarValue};

verus! {

/// The textual form of a value: integers in decimal, floats in decimal,
/// booleans as their literal words.
pub open spec fn val_text(v: VarValue) -> Seq<char> {
    match v {
        VarValue::Int(n) => int_text(n as int),
        VarValue::Float(b) => f64_text_bits(b),
        VarValue::Bool(b) => if b {
            "true"@
        } else {
            "false"@
        },
    }
}

/// One line of the output stream: the value's text, then its type name.
pub open spec fn line_text(b: ValueBind) -> Seq<char> {
    val_text(b.val) + " : "@ + val_ty_name(b.val)
}

/// One line of the state report: a binding's name, type and value.
pub open spec fn report_line_text(name: Seq<char>, b: ValueBind) -> Seq<char> {
    "Var: "@ + name + "    Type: "@ + val_ty_name(b.val) + "    Value: "@ + val_text(b.val)
}

/// The textual form of a value.
pub fn render_value(v: &VarValue) -> (r: String)
    ensures
        r@ == val_text(*v),
{
    match v {
        VarValue::Int(n) => int_to_text(*n),
        VarValue::Float(b) => float_text(*b),
        VarValue::Bool(b) => if *b {
            String::from_str("true")
        } else {
            String::from_str("false")
        },
    }
}

/// The text of one output line, as `PrintLine` emits it.
pub fn render_line(b: &ValueBind) -> (r: String)
    ensures
        r@ == line_text(*b),
{
    let mut s = render_value(&b.val);
    s.append(" : ");
    let ty = b.get_type();
    s.append(ty.as_str());
    s
}

/// The texts of all recorded output lines, in emission order.
pub fn render_output(out: &Vec<ValueBind>) -> (r: Vec<String>)
    ensures
        r@.len() == out@.len(),
        forall|i: int| 0 <= i < out@.len() ==> r@[i]@ == line_text(out@[i]),
{
    let mut r: Vec<String> = Vec::new();
    let mut i: usize = 0;
    while i < out.len()
        invariant
            i <= out.len(),
            r@.len() == i,
            forall|j: int| 0 <= j < i ==> r@[j]@ == line_text(out@[j]),
        decreases out.len() - i,
    {
        r.push(render_line(&out[i]));
        i = i + 1;
    }
    r
}

/// The report of every binding in the head frame of the surviving chain,
/// one line per binding, in insertion order.
pub fn render_state(state: &ProgStates) -> (r: Vec<String>)
    ensures
        state@.len() > 0 ==> r@.len() == state@[0].len() && (forall|i: int|
            0 <= i < state@[0].len() ==> r@[i]@ == report_line_text(
                state@[0][i].0,
                state@[0][i].1,
            )),
        state@.len() == 0 ==> r@.len() == 0,
{
    let mut r: Vec<String> = Vec::new();
    if state.states.len() == 0 {
        return r;
    }
    let head = &state.states[0];
    let mut i: usize = 0;
    while i < head.vars.len()
        invariant
            i <= head.vars.len(),
            r@.len() == i,
            head == &state.states[0],
            state@.len() > 0,
            head@ == state@[0],
            forall|j: int| 0 <= j < i ==> r@[j]@ == report_line_text(head@[j].0, head@[j].1),
        decreases head.vars.len() - i,
    {
        let mut s = String::from_str("Var: ");
        s.append(head.vars[i].0.as_str());
        s.append("    Type: ");
        let ty = head.vars[i].1.get_type();
        s.append(ty.as_str());
        s.append("    Value: ");
        let vt = render_value(&head.vars[i].1.val);
        s.append(vt.as_str());
        proof {
            assert(head@[i as int] == (head.vars@[i as int].0@, head.vars@[i as int].1));
        }
        r.push(s);
        i = i + 1;
    }
    r
}

/// The text of an error report, one line per error; the `Return` transfer
/// reports the returned value's type and text.
pub open spec fn err_text(e: RuntimeErr) -> Seq<char> {
    match e {
        RuntimeErr::TypeMismatch => "[Error] Type mismatch in an expression"@,
        RuntimeErr::VarUsedBeforeDefine => "[Error] Var used before defined"@,
        RuntimeErr::Unknown => "[Error] An exception has occurred"@,
        RuntimeErr::DivideByZero => "[Error] Attempt to divide by zero"@,
        RuntimeErr::FunctionUndefined => "[Error] Function used before defined"@,
        RuntimeErr::ArityMismatch => "[Error] Wrong number of arguments in a call"@,
        RuntimeErr::MissingReturn => "[Error] Function body ended without a return"@,
        RuntimeErr::StackLimit => "[Error] Evaluation budget exhausted"@,
        RuntimeErr::ReturnValue(vb) => "[Return] Exit with "@ + val_ty_name(vb.val) + " : "@
            + val_text(vb.val),
    }
}

impl RuntimeErr {
    /// The error report line for this failure.
    pub fn message(&self) -> (r: String)
        ensures
            r@ == err_text(*self),
    {
        match self {
            RuntimeErr::TypeMismatch => String::from_str("[Error] Type mismatch in an expression"),
            RuntimeErr::VarUsedBeforeDefine => String::from_str("[Error] Var used before defined"),
            RuntimeErr::Unknown => String::from_str("[Error] An exception has occurred"),
            RuntimeErr::DivideByZero => String::from_str("[Error] Attempt to divide by zero"),
            RuntimeErr::FunctionUndefined => String::from_str(
                "[Error] Function used before defined",
            ),
            RuntimeErr::ArityMismatch => String::from_str(
                "[Error] Wrong number of arguments in a call",
            ),
            RuntimeErr::MissingReturn => String::from_str(
                "[Error] Function body ended without a return",
            ),
            RuntimeErr::StackLimit => String::from_str("[Error] Evaluation budget exhausted"),
            RuntimeErr::ReturnValue(vb) => {
                let mut s = String::from_str("[Return] Exit with ");
                let ty = vb.get_type();
                s.append(ty.as_str());
                s.append(" : ");
                let vt = render_value(&vb.val);
                s.append(vt.as_str());
                proof {
                    assert(s@ =~= err_text(*self));
                }
                s
            },
        }
    }
}

} // verus!
