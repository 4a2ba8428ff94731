//! The semantics of Pistolet, as a fuel-bounded specification interpreter.
//!
//! `eval_stmt_s` and `eval_expr_s` define, over the ghost mirrors of the
//! syntax trees, exactly what evaluation returns and how it transforms the
//! evaluation state: the scope chain, the function table and the output
//! stream. The executable evaluator in `interpreter` is proved to agree
//! with these functions on every input.
//!
//! The fuel bounds the recursion: one unit is spent entering a function
//! body and one per loop iteration after the first. When it runs out the
//! result is the `StackLimit` error. Everything else is independent of the
//! fuel, which models the configurable evaluation budget.

use vstd::prelude::*;

use crate::assoc::{assoc_get, assoc_set};
use crate::ast::{height_expr, height_expr_list, height_stmt, height_stmt_list, height_val, SpecAst, SpecExpr, SpecVal};
use crate::float::{f64_add_bits, f64_div_bits, f64_ieee_eq_bits, f64_is_infinite_bits,
    f64_mul_bits, f64_sub_bits};
use crate::state::{chain_bind, chain_lookup, chain_tail, SpecChain, SpecFrame, SpecFuncs,
    SpecFunEntry};
use crate::value::{ty_name_matches, RuntimeErr, ValueBind, VarValue};

verus! {

/// The whole evaluation state: scope chain, function table, output stream.
#[verifier::ext_equal]
pub ghost struct EvalState {
    pub chain: SpecChain,
    pub funcs: SpecFuncs,
    pub out: Seq<ValueBind>,
}

/// The state a program run starts from: one empty global frame, no
/// functions, no output.
pub open spec fn init_state() -> EvalState {
    EvalState {
        chain: seq![Seq::<(Seq<char>, ValueBind)>::empty()],
        funcs: Seq::empty(),
        out: Seq::empty(),
    }
}

/// An arithmetic operator.
#[derive(Clone, Copy, Debug, PartialEq, Eq, Structural)]
pub enum ArithOp {
    Add,
    Sub,
    Mul,
    Div,
}

/// A boolean operator.
#[derive(Clone, Copy, Debug, PartialEq, Eq, Structural)]
pub enum BoolOp {
    And,
    Orb,
    Nand,
}

/// The magnitude of an integer.
pub open spec fn abs_int(n: int) -> int {
    if n < 0 {
        -n
    } else {
        n
    }
}

/// Truncating division (toward zero), as the host language divides.
pub open spec fn div_trunc(n: int, m: int) -> int {
    if (n < 0) != (m < 0) {
        -(abs_int(n) / abs_int(m))
    } else {
        abs_int(n) / abs_int(m)
    }
}

/// Truncating division on the value type, wrapping on the one overflowing
/// pair (the minimum value divided by minus one).
pub open spec fn div_value(n: i128, m: i128) -> i128 {
    if n == i128::MIN && m == -1 {
        i128::MIN
    } else {
        div_trunc(n as int, m as int) as i128
    }
}

/// The result of one arithmetic operation: both operands must be numbers
/// of the same type; integers wrap; a zero integer divisor or an infinite
/// float quotient is a division by zero.
pub open spec fn spec_arith(op: ArithOp, v1: VarValue, v2: VarValue) -> Result<
    ValueBind,
    RuntimeErr,
> {
    match (v1, v2) {
        (VarValue::Int(a), VarValue::Int(b)) => match op {
            ArithOp::Add => Ok(
                ValueBind { val: VarValue::Int(vstd::wrapping::i128_specs::wrapping_add(a, b)) },
            ),
            ArithOp::Sub => Ok(
                ValueBind { val: VarValue::Int(vstd::wrapping::i128_specs::wrapping_sub(a, b)) },
            ),
            ArithOp::Mul => Ok(
                ValueBind { val: VarValue::Int(vstd::wrapping::i128_specs::wrapping_mul(a, b)) },
            ),
            ArithOp::Div => if b == 0 {
                Err(RuntimeErr::DivideByZero)
            } else {
                Ok(ValueBind { val: VarValue::Int(div_value(a, b)) })
            },
        },
        (VarValue::Float(a), VarValue::Float(b)) => match op {
            ArithOp::Add => Ok(ValueBind { val: VarValue::Float(f64_add_bits(a, b)) }),
            ArithOp::Sub => Ok(ValueBind { val: VarValue::Float(f64_sub_bits(a, b)) }),
            ArithOp::Mul => Ok(ValueBind { val: VarValue::Float(f64_mul_bits(a, b)) }),
            ArithOp::Div => if f64_is_infinite_bits(f64_div_bits(a, b)) {
                Err(RuntimeErr::DivideByZero)
            } else {
                Ok(ValueBind { val: VarValue::Float(f64_div_bits(a, b)) })
            },
        },
        _ => Err(RuntimeErr::TypeMismatch),
    }
}

/// The result of one boolean operation: both operands must be booleans.
pub open spec fn spec_boolop(op: BoolOp, v1: VarValue, v2: VarValue) -> Result<
    ValueBind,
    RuntimeErr,
> {
    match (v1, v2) {
        (VarValue::Bool(a), VarValue::Bool(b)) => match op {
            BoolOp::And => Ok(ValueBind { val: VarValue::Bool(a && b) }),
            BoolOp::Orb => Ok(ValueBind { val: VarValue::Bool(a || b) }),
            BoolOp::Nand => Ok(ValueBind { val: VarValue::Bool(!(a && b)) }),
        },
        _ => Err(RuntimeErr::TypeMismatch),
    }
}

/// The result of an equality test: both operands must be numbers of the
/// same type; floats compare by IEEE equality.
pub open spec fn spec_eqop(v1: VarValue, v2: VarValue) -> Result<ValueBind, RuntimeErr> {
    match (v1, v2) {
        (VarValue::Int(a), VarValue::Int(b)) => Ok(ValueBind { val: VarValue::Bool(a == b) }),
        (VarValue::Float(a), VarValue::Float(b)) => Ok(
            ValueBind { val: VarValue::Bool(f64_ieee_eq_bits(a, b)) },
        ),
        _ => Err(RuntimeErr::TypeMismatch),
    }
}

/// One binary operator of the expression language.
#[derive(Clone, Copy, Debug, PartialEq, Eq, Structural)]
pub enum BinTag {
    Arith(ArithOp),
    Boolean(BoolOp),
    Equal,
}

/// The result of one binary operation on two evaluated operands.
pub open spec fn apply_binop(tag: BinTag, v1: VarValue, v2: VarValue) -> Result<
    ValueBind,
    RuntimeErr,
> {
    match tag {
        BinTag::Arith(op) => spec_arith(op, v1, v2),
        BinTag::Boolean(op) => spec_boolop(op, v1, v2),
        BinTag::Equal => spec_eqop(v1, v2),
    }
}

/// Evaluate the left operand, then the right, then apply the operator,
/// short-circuiting on the first failure.
pub open spec fn eval_binop_s(tag: BinTag, ea: SpecExpr, eb: SpecExpr, st: EvalState, fuel: nat) -> (
    EvalState,
    Result<ValueBind, RuntimeErr>,
)
    decreases fuel, 1 + height_expr(ea) + height_expr(eb), 0int,
{
    let (st1, r1) = eval_expr_s(ea, st, fuel);
    match r1 {
        Err(err) => (st1, Err(err)),
        Ok(v1) => {
            let (st2, r2) = eval_expr_s(eb, st1, fuel);
            match r2 {
                Err(err) => (st2, Err(err)),
                Ok(v2) => (st2, apply_binop(tag, v1.val, v2.val)),
            }
        },
    }
}

/// The parameter list of a registered function, expanded to (name, type)
/// pairs; `None` when the stored tree is not a `Paralist` of `Varbind`s.
pub open spec fn params_of(p: SpecAst) -> Option<Seq<(Seq<char>, Seq<char>)>> {
    match p {
        SpecAst::Paralist(l) => varbinds_of(l),
        _ => None,
    }
}

/// The (name, type) pairs of a sequence of `Varbind` nodes.
pub open spec fn varbinds_of(l: Seq<SpecAst>) -> Option<Seq<(Seq<char>, Seq<char>)>>
    decreases l.len(),
{
    if l.len() == 0 {
        Some(Seq::empty())
    } else {
        match l[0] {
            SpecAst::Varbind(n, t) => match varbinds_of(l.subrange(1, l.len() as int)) {
                Some(rest) => Some(seq![(n, t)] + rest),
                None => None,
            },
            _ => None,
        }
    }
}

/// Bind the argument values to the parameter names in order, type-checking
/// each against the declared parameter type.
pub open spec fn bind_args(
    params: Seq<(Seq<char>, Seq<char>)>,
    args: Seq<ValueBind>,
    acc: SpecFrame,
) -> Result<SpecFrame, RuntimeErr>
    decreases params.len(),
{
    if params.len() == 0 {
        Ok(acc)
    } else if !ty_name_matches(params[0].1, args[0].val) {
        Err(RuntimeErr::TypeMismatch)
    } else {
        bind_args(
            params.subrange(1, params.len() as int),
            args.subrange(1, args.len() as int),
            assoc_set(acc, params[0].0, args[0]),
        )
    }
}

/// Evaluate an expression: the new state and the value or failure.
pub open spec fn eval_expr_s(e: SpecExpr, st: EvalState, fuel: nat) -> (EvalState, Result<
    ValueBind,
    RuntimeErr,
>)
    decreases fuel, height_expr(e), 1int,
{
    match e {
        SpecExpr::Val(v) => eval_val_s(v, st, fuel),
        SpecExpr::Add(a, b) => eval_binop_s(BinTag::Arith(ArithOp::Add), *a, *b, st, fuel),
        SpecExpr::Sub(a, b) => eval_binop_s(BinTag::Arith(ArithOp::Sub), *a, *b, st, fuel),
        SpecExpr::Mul(a, b) => eval_binop_s(BinTag::Arith(ArithOp::Mul), *a, *b, st, fuel),
        SpecExpr::Div(a, b) => eval_binop_s(BinTag::Arith(ArithOp::Div), *a, *b, st, fuel),
        SpecExpr::And(a, b) => eval_binop_s(BinTag::Boolean(BoolOp::And), *a, *b, st, fuel),
        SpecExpr::Orb(a, b) => eval_binop_s(BinTag::Boolean(BoolOp::Orb), *a, *b, st, fuel),
        SpecExpr::Nand(a, b) => eval_binop_s(BinTag::Boolean(BoolOp::Nand), *a, *b, st, fuel),
        SpecExpr::Eq(a, b) => eval_binop_s(BinTag::Equal, *a, *b, st, fuel),
    }
}

/// Evaluate a leaf: a literal, a variable reference, or a call.
pub open spec fn eval_val_s(v: SpecVal, st: EvalState, fuel: nat) -> (EvalState, Result<
    ValueBind,
    RuntimeErr,
>)
    decreases fuel, height_val(v), 1int,
{
    match v {
        SpecVal::Int(n) => (st, Ok(ValueBind { val: VarValue::Int(n) })),
        SpecVal::Float(b) => (st, Ok(ValueBind { val: VarValue::Float(b) })),
        SpecVal::Bool(b) => (st, Ok(ValueBind { val: VarValue::Bool(b) })),
        SpecVal::Var(name) => (
            st,
            match chain_lookup(st.chain, name) {
                Some(vb) => Ok(vb),
                None => Err(RuntimeErr::VarUsedBeforeDefine),
            },
        ),
        SpecVal::Call(name, args) => match assoc_get(st.funcs, name) {
            None => (st, Err(RuntimeErr::FunctionUndefined)),
            Some(entry) => {
                let (st1, ar) = eval_args_s(args, st, fuel);
                match ar {
                    Err(err) => (st1, Err(err)),
                    Ok(argvals) => if fuel == 0 {
                        (st1, Err(RuntimeErr::StackLimit))
                    } else {
                        eval_call_s(entry, argvals, st1, (fuel - 1) as nat)
                    },
                }
            },
        },
    }
}

/// Evaluate argument expressions in order, short-circuiting on the first
/// failure.
pub open spec fn eval_args_s(args: Seq<SpecExpr>, st: EvalState, fuel: nat) -> (EvalState, Result<
    Seq<ValueBind>,
    RuntimeErr,
>)
    decreases fuel, height_expr_list(args), 1int,
{
    if args.len() == 0 {
        (st, Ok(Seq::empty()))
    } else {
        let (st1, r) = eval_expr_s(args[0], st, fuel);
        match r {
            Err(err) => (st1, Err(err)),
            Ok(v) => {
                let (st2, rest) = eval_args_s(args.subrange(1, args.len() as int), st1, fuel);
                match rest {
                    Err(err) => (st2, Err(err)),
                    Ok(vs) => (st2, Ok(seq![v] + vs)),
                }
            },
        }
    }
}

/// Call a registered function on already evaluated arguments: check arity,
/// push one frame binding the parameters, run the body as a sequence, pop
/// the frame, and interpret the body's outcome: a well-typed `Return` is
/// the call's value, an ill-typed one a type mismatch, no `Return` a
/// missing-return failure.
pub open spec fn eval_call_s(
    entry: SpecFunEntry,
    argvals: Seq<ValueBind>,
    st: EvalState,
    fuel: nat,
) -> (EvalState, Result<ValueBind, RuntimeErr>)
    decreases fuel, height_stmt(entry.body), 2int,
{
    match params_of(entry.params) {
        None => (st, Err(RuntimeErr::Unknown)),
        Some(params) => if argvals.len() != params.len() {
            (st, Err(RuntimeErr::ArityMismatch))
        } else {
            match bind_args(params, argvals, Seq::empty()) {
                Err(err) => (st, Err(err)),
                Ok(frame) => {
                    let st1 = EvalState { chain: seq![frame] + st.chain, ..st };
                    let (st2, r) = eval_seq_ast_s(entry.body, st1, fuel);
                    let st3 = EvalState { chain: chain_tail(st2.chain), ..st2 };
                    match r {
                        None => (st3, Err(RuntimeErr::MissingReturn)),
                        Some(RuntimeErr::ReturnValue(vb)) => if ty_name_matches(
                            entry.ret_ty,
                            vb.val,
                        ) {
                            (st3, Ok(vb))
                        } else {
                            (st3, Err(RuntimeErr::TypeMismatch))
                        },
                        Some(err) => (st3, Err(err)),
                    }
                },
            }
        },
    }
}

/// Execute a statement: the new state, and `None` on success or the
/// failure (or `Return` transfer) that stopped it.
pub open spec fn eval_stmt_s(s: SpecAst, st: EvalState, fuel: nat) -> (EvalState, Option<
    RuntimeErr,
>)
    decreases fuel, height_stmt(s), 1int,
{
    match s {
        SpecAst::Sequence(l) => eval_seq_s(l, st, fuel),
        SpecAst::Let(n, t, e) => {
            let (st1, r) = eval_expr_s(e, st, fuel);
            match r {
                Err(err) => (st1, Some(err)),
                Ok(vb) => if ty_name_matches(t, vb.val) {
                    if st1.chain.len() == 0 {
                        (st1, Some(RuntimeErr::Unknown))
                    } else {
                        (EvalState { chain: chain_bind(st1.chain, n, vb), ..st1 }, None)
                    }
                } else {
                    (st1, Some(RuntimeErr::TypeMismatch))
                },
            }
        },
        SpecAst::If(c, bt, bf) => {
            let (st1, r) = eval_expr_s(c, st, fuel);
            match r {
                Err(err) => (st1, Some(err)),
                Ok(vb) => match vb.val {
                    VarValue::Bool(cond) => {
                        let st2 = EvalState {
                            chain: seq![Seq::<(Seq<char>, ValueBind)>::empty()] + st1.chain,
                            ..st1
                        };
                        let (st3, r2) = if cond {
                            eval_seq_ast_s(*bt, st2, fuel)
                        } else {
                            eval_seq_ast_s(*bf, st2, fuel)
                        };
                        (EvalState { chain: chain_tail(st3.chain), ..st3 }, r2)
                    },
                    _ => (st1, Some(RuntimeErr::TypeMismatch)),
                },
            }
        },
        SpecAst::While(_body, _c) => {
            let st1 = EvalState {
                chain: seq![Seq::<(Seq<char>, ValueBind)>::empty()] + st.chain,
                ..st
            };
            let (st2, r) = eval_while_s(s, st1, fuel);
            (EvalState { chain: chain_tail(st2.chain), ..st2 }, r)
        },
        SpecAst::Return(e) => {
            let (st1, r) = eval_expr_s(e, st, fuel);
            match r {
                Err(err) => (st1, Some(err)),
                Ok(vb) => (st1, Some(RuntimeErr::ReturnValue(vb))),
            }
        },
        SpecAst::Fun(n, params, t, body) => (
            EvalState {
                funcs: assoc_set(
                    st.funcs,
                    n,
                    SpecFunEntry { params: *params, ret_ty: t, body: *body },
                ),
                ..st
            },
            None,
        ),
        SpecAst::PrintLine(e) => {
            let (st1, r) = eval_expr_s(e, st, fuel);
            match r {
                Err(err) => (st1, Some(err)),
                Ok(vb) => (EvalState { out: st1.out.push(vb), ..st1 }, None),
            }
        },
        SpecAst::EOI => (st, None),
        _ => (st, Some(RuntimeErr::Unknown)),
    }
}

/// Execute the statements of a sequence in order, stopping at the first
/// failure.
pub open spec fn eval_seq_s(l: Seq<SpecAst>, st: EvalState, fuel: nat) -> (EvalState, Option<
    RuntimeErr,
>)
    decreases fuel, height_stmt_list(l), 1int,
{
    if l.len() == 0 {
        (st, None)
    } else {
        let (st1, r) = eval_stmt_s(l[0], st, fuel);
        match r {
            Some(err) => (st1, Some(err)),
            None => eval_seq_s(l.subrange(1, l.len() as int), st1, fuel),
        }
    }
}

/// Execute a tree that must be a `Sequence` node, as branch and function
/// bodies are; any other shape is the defensive unknown failure.
pub open spec fn eval_seq_ast_s(s: SpecAst, st: EvalState, fuel: nat) -> (EvalState, Option<
    RuntimeErr,
>)
    decreases fuel, height_stmt(s), 1int,
{
    match s {
        SpecAst::Sequence(l) => eval_seq_s(l, st, fuel),
        _ => (st, Some(RuntimeErr::Unknown)),
    }
}

/// One or more passes of a loop: run the body, then the condition; a true
/// condition ends the loop, a false one repeats it, spending one unit of
/// fuel. The node must be a `While`.
pub open spec fn eval_while_s(w: SpecAst, st: EvalState, fuel: nat) -> (EvalState, Option<
    RuntimeErr,
>)
    decreases fuel, height_stmt(w), 0int,
{
    match w {
        SpecAst::While(body, c) => {
            let (st1, r) = eval_seq_ast_s(*body, st, fuel);
            match r {
                Some(err) => (st1, Some(err)),
                None => {
                    let (st2, cr) = eval_expr_s(c, st1, fuel);
                    match cr {
                        Err(err) => (st2, Some(err)),
                        Ok(vb) => match vb.val {
                            VarValue::Bool(true) => (st2, None),
                            VarValue::Bool(false) => if fuel == 0 {
                                (st2, Some(RuntimeErr::StackLimit))
                            } else {
                                eval_while_s(w, st2, (fuel - 1) as nat)
                            },
                            _ => (st2, Some(RuntimeErr::TypeMismatch)),
                        },
                    }
                },
            }
        },
        _ => (st, Some(RuntimeErr::Unknown)),
    }
}

/// Run a whole program from the initial state.
pub open spec fn run_program_s(prog: SpecAst, fuel: nat) -> (EvalState, Option<RuntimeErr>) {
    eval_stmt_s(prog, init_state(), fuel)
}

} // verus!
