//! Laws of the evaluator, proved once over the specification interpreter.
//!
//! The chain-discipline lemmas state the scoping guarantee: expression
//! evaluation returns the scope chain exactly as it found it (every pushed
//! frame is popped on every path, success or failure), and statement
//! evaluation touches the head frame only, leaving every outer frame as it
//! was. The remaining lemmas state the behaviour of binding and shadowing,
//! the let type check, the loop polarity, and the function-call protocol.

use vstd::prelude::*;

use crate::assoc::{assoc_get, assoc_set, lemma_assoc_set_get, lemma_assoc_set_other};
use crate::ast::{height_expr, height_expr_list, height_stmt, height_stmt_list, height_val,
    SpecAst, SpecExpr, SpecVal};
use crate::semantics::{bind_args, eval_args_s, eval_binop_s, eval_call_s, eval_expr_s,
    eval_seq_ast_s, eval_seq_s, eval_stmt_s, eval_val_s, eval_while_s, params_of, BinTag,
    EvalState};
use crate::state::{chain_bind, chain_lookup, chain_tail, SpecChain, SpecFrame, SpecFunEntry};
use crate::value::{ty_name_matches, RuntimeErr, ValueBind, VarValue};

verus! {

/// Evaluating an expression returns the scope chain exactly as it found
/// it: every frame a call pushes is popped on every path.
pub proof fn lemma_expr_chain(e: SpecExpr, st: EvalState, fuel: nat)
    ensures
        eval_expr_s(e, st, fuel).0.chain == st.chain,
    decreases fuel, height_expr(e), 1int,
{
    match e {
        SpecExpr::Val(v) => lemma_val_chain(v, st, fuel),
        SpecExpr::Add(a, b) => lemma_binop_chain(BinTag::Arith(crate::semantics::ArithOp::Add), *a, *b, st, fuel),
        SpecExpr::Sub(a, b) => lemma_binop_chain(BinTag::Arith(crate::semantics::ArithOp::Sub), *a, *b, st, fuel),
        SpecExpr::Mul(a, b) => lemma_binop_chain(BinTag::Arith(crate::semantics::ArithOp::Mul), *a, *b, st, fuel),
        SpecExpr::Div(a, b) => lemma_binop_chain(BinTag::Arith(crate::semantics::ArithOp::Div), *a, *b, st, fuel),
        SpecExpr::And(a, b) => lemma_binop_chain(BinTag::Boolean(crate::semantics::BoolOp::And), *a, *b, st, fuel),
        SpecExpr::Orb(a, b) => lemma_binop_chain(BinTag::Boolean(crate::semantics::BoolOp::Orb), *a, *b, st, fuel),
        SpecExpr::Nand(a, b) => lemma_binop_chain(BinTag::Boolean(crate::semantics::BoolOp::Nand), *a, *b, st, fuel),
        SpecExpr::Eq(a, b) => lemma_binop_chain(BinTag::Equal, *a, *b, st, fuel),
    }
}

/// As `lemma_expr_chain`, for one binary operation.
pub proof fn lemma_binop_chain(tag: BinTag, ea: SpecExpr, eb: SpecExpr, st: EvalState, fuel: nat)
    ensures
        eval_binop_s(tag, ea, eb, st, fuel).0.chain == st.chain,
    decreases fuel, 1 + height_expr(ea) + height_expr(eb), 0int,
{
    lemma_expr_chain(ea, st, fuel);
    let (st1, r1) = eval_expr_s(ea, st, fuel);
    if r1 is Ok {
        lemma_expr_chain(eb, st1, fuel);
    }
}

/// As `lemma_expr_chain`, for a leaf.
pub proof fn lemma_val_chain(v: SpecVal, st: EvalState, fuel: nat)
    ensures
        eval_val_s(v, st, fuel).0.chain == st.chain,
    decreases fuel, height_val(v), 1int,
{
    match v {
        SpecVal::Call(name, args) => {
            match assoc_get(st.funcs, name) {
                None => {
                },
                Some(entry) => {
                    lemma_args_chain(args, st, fuel);
                    let (st1, ar) = eval_args_s(args, st, fuel);
                    if ar is Ok && fuel > 0 {
                        lemma_call_chain(entry, ar->Ok_0, st1, (fuel - 1) as nat);
                    }
                },
            }
        },
        _ => {
        },
    }
}

/// As `lemma_expr_chain`, for a list of argument expressions.
pub proof fn lemma_args_chain(args: Seq<SpecExpr>, st: EvalState, fuel: nat)
    ensures
        eval_args_s(args, st, fuel).0.chain == st.chain,
    decreases fuel, height_expr_list(args), 1int,
{
    if args.len() > 0 {
        lemma_expr_chain(args[0], st, fuel);
        let (st1, r) = eval_expr_s(args[0], st, fuel);
        if r is Ok {
            lemma_args_chain(args.subrange(1, args.len() as int), st1, fuel);
        }
    }
}

/// A function call restores the caller's scope chain on all three
/// outcomes: value returned, type mismatch, or missing return.
pub proof fn lemma_call_chain(
    entry: SpecFunEntry,
    argvals: Seq<ValueBind>,
    st: EvalState,
    fuel: nat,
)
    ensures
        eval_call_s(entry, argvals, st, fuel).0.chain == st.chain,
    decreases fuel, height_stmt(entry.body), 2int,
{
    match params_of(entry.params) {
        None => {
        },
        Some(params) => {
            if argvals.len() == params.len() {
                match bind_args(params, argvals, Seq::empty()) {
                    Err(_) => {
                    },
                    Ok(frame) => {
                        let st1 = EvalState { chain: seq![frame] + st.chain, ..st };
                        lemma_seq_ast_chain(entry.body, st1, fuel);
                        let (st2, _r) = eval_seq_ast_s(entry.body, st1, fuel);
                        assert(chain_tail(st2.chain) =~= st.chain);
                    },
                }
            }
        },
    }
}

/// Executing a statement leaves every outer frame as it was: only the head
/// frame of the chain can gain or change bindings.
pub proof fn lemma_stmt_chain(s: SpecAst, st: EvalState, fuel: nat)
    ensures
        ({
            let st2 = eval_stmt_s(s, st, fuel).0;
            st2.chain.len() == st.chain.len() && (forall|i: int|
                1 <= i < st.chain.len() ==> st2.chain[i] == st.chain[i])
        }),
    decreases fuel, height_stmt(s), 1int,
{
    match s {
        SpecAst::Sequence(l) => lemma_seq_chain(l, st, fuel),
        SpecAst::Let(n, t, e) => {
            lemma_expr_chain(e, st, fuel);
        },
        SpecAst::If(c, bt, bf) => {
            lemma_expr_chain(c, st, fuel);
            let (st1, r) = eval_expr_s(c, st, fuel);
            match r {
                Ok(vb) => match vb.val {
                    VarValue::Bool(cond) => {
                        let st2 = EvalState {
                            chain: seq![Seq::<(Seq<char>, ValueBind)>::empty()] + st1.chain,
                            ..st1
                        };
                        let (st3, _r2) = if cond {
                            eval_seq_ast_s(*bt, st2, fuel)
                        } else {
                            eval_seq_ast_s(*bf, st2, fuel)
                        };
                        if cond {
                            lemma_seq_ast_chain(*bt, st2, fuel);
                        } else {
                            lemma_seq_ast_chain(*bf, st2, fuel);
                        }
                        assert(chain_tail(st3.chain) =~= st.chain);
                    },
                    _ => {
                    },
                },
                Err(_) => {
                },
            }
        },
        SpecAst::While(_body, _c) => {
            let st1 = EvalState {
                chain: seq![Seq::<(Seq<char>, ValueBind)>::empty()] + st.chain,
                ..st
            };
            lemma_while_chain(s, st1, fuel);
            let (st2, _r) = eval_while_s(s, st1, fuel);
            assert(chain_tail(st2.chain) =~= st.chain);
        },
        SpecAst::Return(e) => {
            lemma_expr_chain(e, st, fuel);
        },
        SpecAst::PrintLine(e) => {
            lemma_expr_chain(e, st, fuel);
        },
        _ => {
        },
    }
}

/// As `lemma_stmt_chain`, for the statements of a sequence.
pub proof fn lemma_seq_chain(l: Seq<SpecAst>, st: EvalState, fuel: nat)
    ensures
        ({
            let st2 = eval_seq_s(l, st, fuel).0;
            st2.chain.len() == st.chain.len() && (forall|i: int|
                1 <= i < st.chain.len() ==> st2.chain[i] == st.chain[i])
        }),
    decreases fuel, height_stmt_list(l), 1int,
{
    if l.len() > 0 {
        lemma_stmt_chain(l[0], st, fuel);
        let (st1, r) = eval_stmt_s(l[0], st, fuel);
        if r is None {
            lemma_seq_chain(l.subrange(1, l.len() as int), st1, fuel);
        }
    }
}

/// As `lemma_stmt_chain`, for a tree run as a sequence.
pub proof fn lemma_seq_ast_chain(s: SpecAst, st: EvalState, fuel: nat)
    ensures
        ({
            let st2 = eval_seq_ast_s(s, st, fuel).0;
            st2.chain.len() == st.chain.len() && (forall|i: int|
                1 <= i < st.chain.len() ==> st2.chain[i] == st.chain[i])
        }),
    decreases fuel, height_stmt(s), 1int,
{
    match s {
        SpecAst::Sequence(l) => lemma_seq_chain(l, st, fuel),
        _ => {
        },
    }
}

/// As `lemma_stmt_chain`, for the passes of a loop: the loop's own frame
/// is the head, so every frame of the enclosing chain is preserved.
pub proof fn lemma_while_chain(w: SpecAst, st: EvalState, fuel: nat)
    ensures
        ({
            let st2 = eval_while_s(w, st, fuel).0;
            st2.chain.len() == st.chain.len() && (forall|i: int|
                1 <= i < st.chain.len() ==> st2.chain[i] == st.chain[i])
        }),
    decreases fuel, height_stmt(w), 0int,
{
    match w {
        SpecAst::While(body, c) => {
            lemma_seq_ast_chain(*body, st, fuel);
            let (st1, r) = eval_seq_ast_s(*body, st, fuel);
            if r is None {
                lemma_expr_chain(c, st1, fuel);
                let (st2, cr) = eval_expr_s(c, st1, fuel);
                match cr {
                    Ok(vb) => match vb.val {
                        VarValue::Bool(false) => {
                            if fuel > 0 {
                                lemma_while_chain(w, st2, (fuel - 1) as nat);
                            }
                        },
                        _ => {
                        },
                    },
                    Err(_) => {
                    },
                }
            }
        },
        _ => {
        },
    }
}

/// Every well-typed literal evaluates, in any state and under any fuel, to
/// a binding holding exactly that literal, whose type name is the
/// literal's kind; the state is untouched.
pub proof fn lemma_literal_eval(n: i128, f: u64, b: bool, st: EvalState, fuel: nat)
    ensures
        eval_expr_s(SpecExpr::Val(SpecVal::Int(n)), st, fuel) == (
            st,
            Ok::<ValueBind, RuntimeErr>(ValueBind { val: VarValue::Int(n) }),
        ),
        eval_expr_s(SpecExpr::Val(SpecVal::Float(f)), st, fuel) == (
            st,
            Ok::<ValueBind, RuntimeErr>(ValueBind { val: VarValue::Float(f) }),
        ),
        eval_expr_s(SpecExpr::Val(SpecVal::Bool(b)), st, fuel) == (
            st,
            Ok::<ValueBind, RuntimeErr>(ValueBind { val: VarValue::Bool(b) }),
        ),
        crate::value::val_ty_name(VarValue::Int(n)) == "int"@,
        crate::value::val_ty_name(VarValue::Float(f)) == "float"@,
        crate::value::val_ty_name(VarValue::Bool(b)) == "bool"@,
{
}

/// When the expression of a `Let` evaluates to a value whose type differs
/// from the declared one, the `Let` fails with the type mismatch and
/// introduces no binding: the scope chain is exactly as the expression
/// left it, which is exactly as it was before.
pub proof fn lemma_let_type_mismatch(
    n: Seq<char>,
    t: Seq<char>,
    e: SpecExpr,
    st: EvalState,
    fuel: nat,
)
    requires
        eval_expr_s(e, st, fuel).1 matches Ok(vb) && !ty_name_matches(t, vb.val),
    ensures
        eval_stmt_s(SpecAst::Let(n, t, e), st, fuel) == (
            eval_expr_s(e, st, fuel).0,
            Some(RuntimeErr::TypeMismatch),
        ),
        eval_stmt_s(SpecAst::Let(n, t, e), st, fuel).0.chain == st.chain,
        chain_lookup(eval_stmt_s(SpecAst::Let(n, t, e), st, fuel).0.chain, n) == chain_lookup(
            st.chain,
            n,
        ),
{
    lemma_expr_chain(e, st, fuel);
}

/// Binding a name writes the head frame: looking the name up afterwards
/// yields the bound value.
pub proof fn lemma_chain_bind_lookup(chain: SpecChain, x: Seq<char>, v: ValueBind)
    requires
        chain.len() > 0,
    ensures
        chain_lookup(chain_bind(chain, x, v), x) == Some(v),
{
    lemma_assoc_set_get(chain[0], x, v);
}

/// Binding a name leaves every other name's lookup unchanged, in every
/// frame.
pub proof fn lemma_chain_bind_other(chain: SpecChain, x: Seq<char>, v: ValueBind, y: Seq<char>)
    requires
        chain.len() > 0,
        y != x,
    ensures
        chain_lookup(chain_bind(chain, x, v), y) == chain_lookup(chain, y),
{
    lemma_assoc_set_other(chain[0], x, v, y);
    assert(chain_bind(chain, x, v).subrange(1, chain.len() as int) =~= chain.subrange(
        1,
        chain.len() as int,
    ));
}

/// Shadowing: a binding of `x` in a pushed inner frame wins the lookup;
/// popping that frame restores the chain, so the lookup again sees the
/// outer binding of `x`, or fails if there is none.
pub proof fn lemma_shadowing(chain: SpecChain, frame: SpecFrame, x: Seq<char>, v: ValueBind)
    ensures
        chain_lookup(seq![assoc_set(frame, x, v)] + chain, x) == Some(v),
        chain_tail(seq![assoc_set(frame, x, v)] + chain) == chain,
{
    lemma_assoc_set_get(frame, x, v);
    assert((seq![assoc_set(frame, x, v)] + chain)[0] == assoc_set(frame, x, v));
    assert(chain_tail(seq![assoc_set(frame, x, v)] + chain) =~= chain);
}

/// A name bound in no frame of the chain fails the lookup.
pub proof fn lemma_lookup_missing(chain: SpecChain, x: Seq<char>)
    requires
        forall|i: int, j: int|
            0 <= i < chain.len() && 0 <= j < chain[i].len() ==> chain[i][j].0 != x,
    ensures
        chain_lookup(chain, x) is None,
    decreases chain.len(),
{
    if chain.len() > 0 {
        crate::assoc::lemma_assoc_get_missing(chain[0], x);
        assert(forall|i: int, j: int|
            0 <= i < chain.len() - 1 && 0 <= j < chain.subrange(1, chain.len() as int)[i].len()
                ==> chain.subrange(1, chain.len() as int)[i][j].0 != x);
        lemma_lookup_missing(chain.subrange(1, chain.len() as int), x);
    }
}

/// The loop runs its body before it ever reads the condition: when the
/// body succeeds and the condition then reads true, the loop ends after
/// that single pass, and the resulting state is the state after that one
/// body and condition evaluation, even though the condition would have
/// read true before the first pass too.
pub proof fn lemma_while_body_first(body: SpecAst, c: SpecExpr, st: EvalState, fuel: nat)
    requires
        eval_seq_ast_s(body, st, fuel).1 is None,
        ({
            let st1 = eval_seq_ast_s(body, st, fuel).0;
            eval_expr_s(c, st1, fuel).1 matches Ok(vb) && vb.val == VarValue::Bool(true)
        }),
    ensures
        ({
            let st1 = eval_seq_ast_s(body, st, fuel).0;
            let st2 = eval_expr_s(c, st1, fuel).0;
            eval_while_s(SpecAst::While(Box::new(body), c), st, fuel) == (
                st2,
                None::<RuntimeErr>,
            )
        }),
{
}

/// A call whose arguments fail their declared parameter types fails with
/// the type mismatch before the body runs: the state is returned exactly
/// as the call received it, output included.
pub proof fn lemma_call_bind_mismatch(
    entry: SpecFunEntry,
    argvals: Seq<ValueBind>,
    st: EvalState,
    fuel: nat,
)
    requires
        params_of(entry.params) matches Some(params) && argvals.len() == params.len()
            && bind_args(params, argvals, Seq::empty()) is Err,
    ensures
        eval_call_s(entry, argvals, st, fuel) == (
            st,
            Err::<ValueBind, RuntimeErr>(
                bind_args(params_of(entry.params)->Some_0, argvals, Seq::empty())->Err_0,
            ),
        ),
{
}

/// A whole program run starts from one (global) frame and ends with that
/// one frame surviving, whatever the program did and however it ended.
pub proof fn lemma_run_one_frame_survives(prog: SpecAst, fuel: nat)
    ensures
        crate::semantics::run_program_s(prog, fuel).0.chain.len() == 1,
{
    lemma_stmt_chain(prog, crate::semantics::init_state(), fuel);
}

/// Division: a zero integer divisor fails, any other integer divisor
/// yields the truncating quotient, and a float division fails exactly when
/// its IEEE quotient is infinite, which a zero float divisor (with a
/// finite, nonzero dividend) produces.
pub proof fn lemma_division_semantics(a: i128, b: i128, x: u64, y: u64)
    ensures
        crate::semantics::spec_arith(
            crate::semantics::ArithOp::Div,
            VarValue::Int(a),
            VarValue::Int(0),
        ) == Err::<ValueBind, RuntimeErr>(RuntimeErr::DivideByZero),
        b != 0 ==> crate::semantics::spec_arith(
            crate::semantics::ArithOp::Div,
            VarValue::Int(a),
            VarValue::Int(b),
        ) == Ok::<ValueBind, RuntimeErr>(
            ValueBind { val: VarValue::Int(crate::semantics::div_value(a, b)) },
        ),
        crate::semantics::spec_arith(
            crate::semantics::ArithOp::Div,
            VarValue::Float(x),
            VarValue::Float(y),
        ) == if crate::float::f64_is_infinite_bits(crate::float::f64_div_bits(x, y)) {
            Err::<ValueBind, RuntimeErr>(RuntimeErr::DivideByZero)
        } else {
            Ok::<ValueBind, RuntimeErr>(
                ValueBind { val: VarValue::Float(crate::float::f64_div_bits(x, y)) },
            )
        },
{
}

/// A call whose body runs to completion without ever signalling `Return`
/// fails with the missing-return error, the caller's chain restored.
pub proof fn lemma_call_missing_return(
    entry: SpecFunEntry,
    argvals: Seq<ValueBind>,
    st: EvalState,
    fuel: nat,
)
    requires
        params_of(entry.params) matches Some(params) && (argvals.len() == params.len() && (
        bind_args(params, argvals, Seq::empty()) matches Ok(frame) && (eval_seq_ast_s(
            entry.body,
            EvalState { chain: seq![frame] + st.chain, ..st },
            fuel,
        ).1 is None))),
    ensures
        eval_call_s(entry, argvals, st, fuel).1 == Err::<ValueBind, RuntimeErr>(
            RuntimeErr::MissingReturn,
        ),
        eval_call_s(entry, argvals, st, fuel).0.chain == st.chain,
{
    lemma_call_chain(entry, argvals, st, fuel);
}

} // verus!
