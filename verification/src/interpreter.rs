//! The executable evaluator, proved to agree with the specification
//! interpreter in `semantics` on every program tree, state and fuel.
//!
//! The scope chain, function table and output stream are threaded through
//! every call as one shared mutable state, so an insertion made deep in a
//! recursive call is visible to every enclosing call on return. `Return`
//! travels the same channel as errors and is consumed at call boundaries.

use vstd::prelude::*;

use crate::ast::{height_expr, height_expr_list, height_stmt, height_stmt_list, height_val,
    view_expr, view_expr_list, view_stmt, view_stmt_list, view_val, PistoletAST, PistoletExpr,
    PistoletValue, SpecExpr, SpecVal};
use crate::float::{float_add, float_div, float_ieee_eq, float_is_infinite, float_mul, float_sub};
use crate::semantics::{abs_int, bind_args, div_value, eval_args_s, eval_binop_s, eval_call_s,
    eval_expr_s, eval_seq_ast_s, eval_seq_s, eval_stmt_s, eval_while_s, init_state, params_of,
    run_program_s, spec_arith, spec_boolop, spec_eqop, varbinds_of, ArithOp, BinTag, BoolOp,
    EvalState};
use crate::state::{FunEntry, FuncDic, ProgState, ProgStates};
use crate::value::{check_ty_name, RuntimeErr, ValueBind, VarValue};

verus! {

/// The evaluation state denoted by the views of the three live structures.
pub open spec fn st3(
    chain: crate::state::SpecChain,
    funcs: crate::state::SpecFuncs,
    out: Seq<ValueBind>,
) -> EvalState {
    EvalState { chain, funcs, out }
}

/// The magnitude of an integer, as the unsigned type.
fn magnitude(n: i128) -> (r: u128)
    ensures
        r as int == abs_int(n as int),
{
    if n >= 0 {
        n as u128
    } else if n == i128::MIN {
        170141183460469231731687303715884105728u128
    } else {
        (-n) as u128
    }
}

/// Truncating division on the value type; the one overflowing pair wraps.
fn div_exec(n: i128, m: i128) -> (r: i128)
    requires
        m != 0,
    ensures
        r == div_value(n, m),
{
    if n == i128::MIN && m == -1 {
        i128::MIN
    } else {
        let mag_n = magnitude(n);
        let mag_m = magnitude(m);
        let q = mag_n / mag_m;
        let neg = (n < 0) != (m < 0);
        if neg {
            if q >= 170141183460469231731687303715884105728u128 {
                proof {
                    assert(q <= mag_n) by (nonlinear_arith)
                        requires
                            mag_m >= 1,
                            q == mag_n / mag_m,
                    ;
                }
                i128::MIN
            } else {
                -(q as i128)
            }
        } else {
            proof {
                assert(q <= mag_n) by (nonlinear_arith)
                    requires
                        mag_m >= 1,
                        q == mag_n / mag_m,
                ;
                if n == i128::MIN {
                    assert(mag_m >= 2);
                    assert(q < 170141183460469231731687303715884105728u128) by (nonlinear_arith)
                        requires
                            mag_m >= 2,
                            q == mag_n / mag_m,
                            mag_n == 170141183460469231731687303715884105728u128,
                    ;
                }
            }
            q as i128
        }
    }
}

/// One arithmetic operation on two runtime values.
pub fn arith_eval(op: ArithOp, v1: VarValue, v2: VarValue) -> (r: Result<ValueBind, RuntimeErr>)
    ensures
        r == spec_arith(op, v1, v2),
{
    match (v1, v2) {
        (VarValue::Int(a), VarValue::Int(b)) => match op {
            ArithOp::Add => Ok(ValueBind::vb(VarValue::Int(a.wrapping_add(b)))),
            ArithOp::Sub => Ok(ValueBind::vb(VarValue::Int(a.wrapping_sub(b)))),
            ArithOp::Mul => Ok(ValueBind::vb(VarValue::Int(a.wrapping_mul(b)))),
            ArithOp::Div => if b == 0 {
                Err(RuntimeErr::DivideByZero)
            } else {
                Ok(ValueBind::vb(VarValue::Int(div_exec(a, b))))
            },
        },
        (VarValue::Float(a), VarValue::Float(b)) => match op {
            ArithOp::Add => Ok(ValueBind::vb(VarValue::Float(float_add(a, b)))),
            ArithOp::Sub => Ok(ValueBind::vb(VarValue::Float(float_sub(a, b)))),
            ArithOp::Mul => Ok(ValueBind::vb(VarValue::Float(float_mul(a, b)))),
            ArithOp::Div => {
                let q = float_div(a, b);
                if float_is_infinite(q) {
                    Err(RuntimeErr::DivideByZero)
                } else {
                    Ok(ValueBind::vb(VarValue::Float(q)))
                }
            },
        },
        _ => Err(RuntimeErr::TypeMismatch),
    }
}

/// One boolean operation on two runtime values.
pub fn bool_eval(op: BoolOp, v1: VarValue, v2: VarValue) -> (r: Result<ValueBind, RuntimeErr>)
    ensures
        r == spec_boolop(op, v1, v2),
{
    match (v1, v2) {
        (VarValue::Bool(a), VarValue::Bool(b)) => match op {
            BoolOp::And => Ok(ValueBind::vb(VarValue::Bool(a && b))),
            BoolOp::Orb => Ok(ValueBind::vb(VarValue::Bool(a || b))),
            BoolOp::Nand => Ok(ValueBind::vb(VarValue::Bool(!(a && b)))),
        },
        _ => Err(RuntimeErr::TypeMismatch),
    }
}

/// One equality test on two runtime values.
pub fn eq_eval(v1: VarValue, v2: VarValue) -> (r: Result<ValueBind, RuntimeErr>)
    ensures
        r == spec_eqop(v1, v2),
{
    match (v1, v2) {
        (VarValue::Int(a), VarValue::Int(b)) => Ok(ValueBind::vb(VarValue::Bool(a == b))),
        (VarValue::Float(a), VarValue::Float(b)) => Ok(
            ValueBind::vb(VarValue::Bool(float_ieee_eq(a, b))),
        ),
        _ => Err(RuntimeErr::TypeMismatch),
    }
}

/// Resolve a variable through the scope chain.
pub fn var_eval(name: String, states: &ProgStates) -> (r: Result<ValueBind, RuntimeErr>)
    ensures
        r == match crate::state::chain_lookup(states@, name@) {
            Some(vb) => Result::<ValueBind, RuntimeErr>::Ok(vb),
            None => Result::<ValueBind, RuntimeErr>::Err(RuntimeErr::VarUsedBeforeDefine),
        },
{
    states.find_var(name)
}

/// The ghost (name, type) pairs of executable parameter pairs.
pub open spec fn view_params(v: Seq<(String, String)>) -> Seq<(Seq<char>, Seq<char>)> {
    v.map_values(|q: (String, String)| (q.0@, q.1@))
}

/// Collect the (name, type) pairs of the `Varbind` nodes from `i` on.
fn expand_from(binds: &Vec<PistoletAST>, i: usize) -> (r: Option<Vec<(String, String)>>)
    requires
        i <= binds.len(),
    ensures
        match r {
            Some(v) => varbinds_of(
                view_stmt_list(binds@.subrange(i as int, binds@.len() as int)),
            ) == Some(view_params(v@)),
            None => varbinds_of(
                view_stmt_list(binds@.subrange(i as int, binds@.len() as int)),
            ) is None,
        },
    decreases binds.len() - i,
{
    let ghost sub = binds@.subrange(i as int, binds@.len() as int);
    if i == binds.len() {
        let r: Vec<(String, String)> = Vec::new();
        proof {
            assert(view_stmt_list(sub).len() == 0);
            assert(view_params(r@) =~= Seq::<(Seq<char>, Seq<char>)>::empty());
            assert(varbinds_of(view_stmt_list(sub)) == Some(view_params(r@)));
        }
        Some(r)
    } else {
        proof {
            assert(sub[0] == binds@[i as int]);
            assert(view_stmt_list(sub)[0] == view_stmt(binds@[i as int]));
            assert(sub.subrange(1, sub.len() as int) =~= binds@.subrange(
                i as int + 1,
                binds@.len() as int,
            ));
            assert(view_stmt_list(sub).subrange(1, view_stmt_list(sub).len() as int)
                =~= view_stmt_list(binds@.subrange(i as int + 1, binds@.len() as int)));
        }
        match &binds[i] {
            PistoletAST::Varbind(n, t) => {
                match expand_from(binds, i + 1) {
                    Some(rest) => {
                        let ghost restview = rest@;
                        let pair = (n.clone(), t.clone());
                        let mut v = rest;
                        v.insert(0, pair);
                        proof {
                            assert(v@ =~= seq![pair] + restview);
                            assert(view_params(v@) =~= seq![(n@, t@)] + view_params(restview));
                        }
                        Some(v)
                    },
                    None => None,
                }
            },
            _ => None,
        }
    }
}

/// Expand a parameter list tree into its (name, type) pairs; `None` when
/// the tree is not a `Paralist` of `Varbind`s.
fn expand_params(p: &PistoletAST) -> (r: Option<Vec<(String, String)>>)
    ensures
        match r {
            Some(v) => params_of(view_stmt(*p)) == Some(view_params(v@)),
            None => params_of(view_stmt(*p)) is None,
        },
{
    match p {
        PistoletAST::Paralist(binds) => {
            proof {
                assert(binds@.subrange(0, binds@.len() as int) =~= binds@);
            }
            expand_from(binds, 0)
        },
        _ => None,
    }
}

/// Bind the arguments from position `i` on to their parameters, checking
/// each declared type.
fn bind_frame(
    params: &Vec<(String, String)>,
    argvals: &Vec<ValueBind>,
    i: usize,
    acc: ProgState,
) -> (r: Result<ProgState, RuntimeErr>)
    requires
        i <= params.len(),
        params.len() == argvals.len(),
    ensures
        ({
            let spec_r = bind_args(
                view_params(params@).subrange(i as int, params@.len() as int),
                argvals@.subrange(i as int, argvals@.len() as int),
                acc@,
            );
            match r {
                Ok(f) => spec_r == Ok::<crate::state::SpecFrame, RuntimeErr>(f@),
                Err(e) => spec_r == Err::<crate::state::SpecFrame, RuntimeErr>(e),
            }
        }),
    decreases params.len() - i,
{
    let ghost psub = view_params(params@).subrange(i as int, params@.len() as int);
    let ghost asub = argvals@.subrange(i as int, argvals@.len() as int);
    if i == params.len() {
        proof {
            assert(psub.len() == 0);
        }
        Ok(acc)
    } else {
        proof {
            assert(psub[0] == (params@[i as int].0@, params@[i as int].1@));
            assert(asub[0] == argvals@[i as int]);
            assert(psub.subrange(1, psub.len() as int) =~= view_params(params@).subrange(
                i as int + 1,
                params@.len() as int,
            ));
            assert(asub.subrange(1, asub.len() as int) =~= argvals@.subrange(
                i as int + 1,
                argvals@.len() as int,
            ));
        }
        if check_ty_name(params[i].1.as_str(), &argvals[i].val) {
            let mut acc2 = acc;
            acc2.insert(params[i].0.clone(), argvals[i]);
            bind_frame(params, argvals, i + 1, acc2)
        } else {
            Err(RuntimeErr::TypeMismatch)
        }
    }
}

/// Evaluate the argument expressions from position `i` on, in order.
fn args_eval(
    args: &Vec<PistoletExpr>,
    i: usize,
    state: &mut ProgStates,
    funcs: &mut FuncDic,
    out: &mut Vec<ValueBind>,
    fuel: u64,
) -> (r: Result<Vec<ValueBind>, RuntimeErr>)
    requires
        i <= args.len(),
    ensures
        ({
            let (st2, rr) = eval_args_s(
                view_expr_list(args@.subrange(i as int, args@.len() as int)),
                st3(old(state)@, old(funcs)@, old(out)@),
                fuel as nat,
            );
            final(state)@ == st2.chain && final(funcs)@ == st2.funcs && final(out)@ == st2.out
                && match r {
                Ok(v) => rr == Ok::<Seq<ValueBind>, RuntimeErr>(v@),
                Err(e) => rr == Err::<Seq<ValueBind>, RuntimeErr>(e),
            }
        }),
    decreases fuel, height_expr_list(view_expr_list(args@.subrange(i as int, args@.len() as int))), 1int,
{
    let ghost sub = view_expr_list(args@.subrange(i as int, args@.len() as int));
    if i == args.len() {
        let r: Vec<ValueBind> = Vec::new();
        proof {
            assert(sub.len() == 0);
            assert(r@ =~= Seq::<ValueBind>::empty());
        }
        Ok(r)
    } else {
        proof {
            assert(args@.subrange(i as int, args@.len() as int)[0] == args@[i as int]);
            assert(sub[0] == view_expr(args@[i as int]));
            assert(args@.subrange(i as int, args@.len() as int).subrange(
                1,
                args@.len() - i as int,
            ) =~= args@.subrange(i as int + 1, args@.len() as int));
            assert(sub.subrange(1, sub.len() as int) =~= view_expr_list(
                args@.subrange(i as int + 1, args@.len() as int),
            ));
        }
        let v0 = match expr_eval(&args[i], state, funcs, out, fuel) {
            Ok(v) => v,
            Err(e) => {
                return Err(e);
            },
        };
        let rest = match args_eval(args, i + 1, state, funcs, out, fuel) {
            Ok(v) => v,
            Err(e) => {
                return Err(e);
            },
        };
        let ghost restview = rest@;
        let mut v = rest;
        v.insert(0, v0);
        proof {
            assert(v@ =~= seq![v0] + restview);
        }
        Ok(v)
    }
}

/// Evaluate the two operands of one binary operator, then apply it.
fn binop_eval(
    tag: BinTag,
    a: &PistoletExpr,
    b: &PistoletExpr,
    state: &mut ProgStates,
    funcs: &mut FuncDic,
    out: &mut Vec<ValueBind>,
    fuel: u64,
) -> (r: Result<ValueBind, RuntimeErr>)
    ensures
        ({
            let (st2, rr) = eval_binop_s(
                tag,
                view_expr(*a),
                view_expr(*b),
                st3(old(state)@, old(funcs)@, old(out)@),
                fuel as nat,
            );
            final(state)@ == st2.chain && final(funcs)@ == st2.funcs && final(out)@ == st2.out
                && r == rr
        }),
    decreases fuel, 1 + height_expr(view_expr(*a)) + height_expr(view_expr(*b)), 0int,
{
    let v1 = match expr_eval(a, state, funcs, out, fuel) {
        Ok(v) => v,
        Err(e) => {
            return Err(e);
        },
    };
    let v2 = match expr_eval(b, state, funcs, out, fuel) {
        Ok(v) => v,
        Err(e) => {
            return Err(e);
        },
    };
    match tag {
        BinTag::Arith(op) => arith_eval(op, v1.get_value(), v2.get_value()),
        BinTag::Boolean(op) => bool_eval(op, v1.get_value(), v2.get_value()),
        BinTag::Equal => eq_eval(v1.get_value(), v2.get_value()),
    }
}

/// Evaluate an expression against the shared state.
#[verifier::rlimit(100)]
pub fn expr_eval(
    expr: &PistoletExpr,
    state: &mut ProgStates,
    funcs: &mut FuncDic,
    out: &mut Vec<ValueBind>,
    fuel: u64,
) -> (r: Result<ValueBind, RuntimeErr>)
    ensures
        ({
            let (st2, rr) = eval_expr_s(
                view_expr(*expr),
                st3(old(state)@, old(funcs)@, old(out)@),
                fuel as nat,
            );
            final(state)@ == st2.chain && final(funcs)@ == st2.funcs && final(out)@ == st2.out
                && r == rr
        }),
    decreases fuel, height_expr(view_expr(*expr)), 1int,
{
    match expr {
        PistoletExpr::Val(value) => match value {
            PistoletValue::Integer(n) => Ok(ValueBind::vb(VarValue::Int(*n))),
            PistoletValue::Float(b) => Ok(ValueBind::vb(VarValue::Float(*b))),
            PistoletValue::Boolean(b) => Ok(ValueBind::vb(VarValue::Bool(*b))),
            PistoletValue::Var(n) => var_eval(n.clone(), state),
            PistoletValue::Funcall(name, fargs) => match funcs.lookup(name) {
                None => Err(RuntimeErr::FunctionUndefined),
                Some(entry) => {
                    proof {
                        assert(fargs@.subrange(0, fargs@.len() as int) =~= fargs@);
                        assert(view_expr(*expr) == SpecExpr::Val(view_val(*value)));
                        assert(view_val(*value) == SpecVal::Call(
                            name@,
                            view_expr_list(fargs@),
                        ));
                        assert(height_expr(view_expr(*expr)) == 1 + height_val(view_val(*value)));
                        assert(height_val(view_val(*value)) == 1 + height_expr_list(
                            view_expr_list(fargs@),
                        ));
                    }
                    let argvals = match args_eval(fargs, 0, state, funcs, out, fuel) {
                        Ok(v) => v,
                        Err(e) => {
                            return Err(e);
                        },
                    };
                    if fuel == 0 {
                        Err(RuntimeErr::StackLimit)
                    } else {
                        call_eval(entry, argvals, state, funcs, out, fuel - 1)
                    }
                },
            },
        },
        PistoletExpr::Add(a, b) => binop_eval(BinTag::Arith(ArithOp::Add), a, b, state, funcs, out, fuel),
        PistoletExpr::Sub(a, b) => binop_eval(BinTag::Arith(ArithOp::Sub), a, b, state, funcs, out, fuel),
        PistoletExpr::Mul(a, b) => binop_eval(BinTag::Arith(ArithOp::Mul), a, b, state, funcs, out, fuel),
        PistoletExpr::Div(a, b) => binop_eval(BinTag::Arith(ArithOp::Div), a, b, state, funcs, out, fuel),
        PistoletExpr::And(a, b) => binop_eval(BinTag::Boolean(BoolOp::And), a, b, state, funcs, out, fuel),
        PistoletExpr::Orb(a, b) => binop_eval(BinTag::Boolean(BoolOp::Orb), a, b, state, funcs, out, fuel),
        PistoletExpr::Nand(a, b) => binop_eval(BinTag::Boolean(BoolOp::Nand), a, b, state, funcs, out, fuel),
        PistoletExpr::Eq(a, b) => binop_eval(BinTag::Equal, a, b, state, funcs, out, fuel),
    }
}

/// Call a registered function on already evaluated arguments.
fn call_eval(
    entry: FunEntry,
    argvals: Vec<ValueBind>,
    state: &mut ProgStates,
    funcs: &mut FuncDic,
    out: &mut Vec<ValueBind>,
    fuel: u64,
) -> (r: Result<ValueBind, RuntimeErr>)
    ensures
        ({
            let (st2, rr) = eval_call_s(
                entry@,
                argvals@,
                st3(old(state)@, old(funcs)@, old(out)@),
                fuel as nat,
            );
            final(state)@ == st2.chain && final(funcs)@ == st2.funcs && final(out)@ == st2.out
                && r == rr
        }),
    decreases fuel, height_stmt(view_stmt(entry.body)), 2int,
{
    let params = match expand_params(&entry.params) {
        Some(p) => p,
        None => {
            return Err(RuntimeErr::Unknown);
        },
    };
    if argvals.len() != params.len() {
        return Err(RuntimeErr::ArityMismatch);
    }
    proof {
        assert(view_params(params@).subrange(0, params@.len() as int) =~= view_params(params@));
        assert(argvals@.subrange(0, argvals@.len() as int) =~= argvals@);
    }
    let frame = match bind_frame(&params, &argvals, 0, ProgState::new()) {
        Ok(f) => f,
        Err(e) => {
            return Err(e);
        },
    };
    state.push_front(frame);
    let r = seq_eval(&entry.body, state, funcs, out, fuel);
    state.pop_front();
    match r {
        None => Err(RuntimeErr::MissingReturn),
        Some(RuntimeErr::ReturnValue(vb)) => {
            if check_ty_name(entry.ret_ty.as_str(), &vb.val) {
                Ok(vb)
            } else {
                Err(RuntimeErr::TypeMismatch)
            }
        },
        Some(e) => Err(e),
    }
}

/// Execute a tree that must be a `Sequence` node, as branch and function
/// bodies are.
pub fn seq_eval(
    ast: &PistoletAST,
    state: &mut ProgStates,
    funcs: &mut FuncDic,
    out: &mut Vec<ValueBind>,
    fuel: u64,
) -> (r: Option<RuntimeErr>)
    ensures
        ({
            let (st2, rr) = eval_seq_ast_s(
                view_stmt(*ast),
                st3(old(state)@, old(funcs)@, old(out)@),
                fuel as nat,
            );
            final(state)@ == st2.chain && final(funcs)@ == st2.funcs && final(out)@ == st2.out
                && r == rr
        }),
    decreases fuel, height_stmt(view_stmt(*ast)), 1int,
{
    match ast {
        PistoletAST::Sequence(terms) => {
            proof {
                assert(terms@.subrange(0, terms@.len() as int) =~= terms@);
            }
            terms_eval(terms, 0, state, funcs, out, fuel)
        },
        _ => Some(RuntimeErr::Unknown),
    }
}

/// Execute the statements of a sequence from position `i` on, in order.
fn terms_eval(
    terms: &Vec<PistoletAST>,
    i: usize,
    state: &mut ProgStates,
    funcs: &mut FuncDic,
    out: &mut Vec<ValueBind>,
    fuel: u64,
) -> (r: Option<RuntimeErr>)
    requires
        i <= terms.len(),
    ensures
        ({
            let (st2, rr) = eval_seq_s(
                view_stmt_list(terms@.subrange(i as int, terms@.len() as int)),
                st3(old(state)@, old(funcs)@, old(out)@),
                fuel as nat,
            );
            final(state)@ == st2.chain && final(funcs)@ == st2.funcs && final(out)@ == st2.out
                && r == rr
        }),
    decreases fuel, height_stmt_list(view_stmt_list(terms@.subrange(i as int, terms@.len() as int))), 1int,
{
    let ghost sub = view_stmt_list(terms@.subrange(i as int, terms@.len() as int));
    if i == terms.len() {
        proof {
            assert(sub.len() == 0);
        }
        None
    } else {
        proof {
            assert(terms@.subrange(i as int, terms@.len() as int)[0] == terms@[i as int]);
            assert(sub[0] == view_stmt(terms@[i as int]));
            assert(terms@.subrange(i as int, terms@.len() as int).subrange(
                1,
                terms@.len() - i as int,
            ) =~= terms@.subrange(i as int + 1, terms@.len() as int));
            assert(sub.subrange(1, sub.len() as int) =~= view_stmt_list(
                terms@.subrange(i as int + 1, terms@.len() as int),
            ));
        }
        match ast_eval(&terms[i], state, funcs, out, fuel) {
            Err(e) => Some(e),
            Ok(()) => terms_eval(terms, i + 1, state, funcs, out, fuel),
        }
    }
}

/// Execute one statement against the shared state.
pub fn ast_eval(
    ast: &PistoletAST,
    state: &mut ProgStates,
    funcs: &mut FuncDic,
    out: &mut Vec<ValueBind>,
    fuel: u64,
) -> (r: Result<(), RuntimeErr>)
    ensures
        ({
            let (st2, rr) = eval_stmt_s(
                view_stmt(*ast),
                st3(old(state)@, old(funcs)@, old(out)@),
                fuel as nat,
            );
            final(state)@ == st2.chain && final(funcs)@ == st2.funcs && final(out)@ == st2.out
                && r == match rr {
                None => Result::<(), RuntimeErr>::Ok(()),
                Some(err) => Result::<(), RuntimeErr>::Err(err),
            }
        }),
    decreases fuel, height_stmt(view_stmt(*ast)), 1int,
{
    match ast {
        PistoletAST::Sequence(terms) => {
            proof {
                assert(terms@.subrange(0, terms@.len() as int) =~= terms@);
            }
            match terms_eval(terms, 0, state, funcs, out, fuel) {
                None => Ok(()),
                Some(e) => Err(e),
            }
        },
        PistoletAST::Let(var_name, var_type, var_expr) => {
            let var_value = match expr_eval(var_expr, state, funcs, out, fuel) {
                Ok(v) => v,
                Err(e) => {
                    return Err(e);
                },
            };
            if check_ty_name(var_type.as_str(), &var_value.val) {
                if state.states.len() == 0 {
                    Err(RuntimeErr::Unknown)
                } else {
                    state.insert(var_name.clone(), var_value);
                    Ok(())
                }
            } else {
                Err(RuntimeErr::TypeMismatch)
            }
        },
        PistoletAST::If(expr, branch_true, branch_false) => {
            let cond = match expr_eval(expr, state, funcs, out, fuel) {
                Ok(v) => v,
                Err(e) => {
                    return Err(e);
                },
            };
            match cond.get_value() {
                VarValue::Bool(b) => {
                    state.push_front(ProgState::new());
                    let r = if b {
                        seq_eval(branch_true, state, funcs, out, fuel)
                    } else {
                        seq_eval(branch_false, state, funcs, out, fuel)
                    };
                    state.pop_front();
                    match r {
                        None => Ok(()),
                        Some(e) => Err(e),
                    }
                },
                _ => Err(RuntimeErr::TypeMismatch),
            }
        },
        PistoletAST::While(_, _) => {
            state.push_front(ProgState::new());
            let r = while_eval(ast, state, funcs, out, fuel);
            state.pop_front();
            match r {
                None => Ok(()),
                Some(e) => Err(e),
            }
        },
        PistoletAST::Return(expr) => {
            let expr_value = match expr_eval(expr, state, funcs, out, fuel) {
                Ok(v) => v,
                Err(e) => {
                    return Err(e);
                },
            };
            Err(RuntimeErr::ReturnValue(expr_value))
        },
        PistoletAST::Fun(func_name, para_list, return_type, fun_body) => {
            funcs.func_insert(
                func_name.clone(),
                crate::ast::clone_ast(para_list),
                return_type.clone(),
                crate::ast::clone_ast(fun_body),
            );
            Ok(())
        },
        PistoletAST::PrintLine(expr) => {
            let expr_value = match expr_eval(expr, state, funcs, out, fuel) {
                Ok(v) => v,
                Err(e) => {
                    return Err(e);
                },
            };
            out.push(expr_value);
            Ok(())
        },
        PistoletAST::EOI => Ok(()),
        _ => Err(RuntimeErr::Unknown),
    }
}

/// Run the body, then the condition; repeat while the condition reads
/// false. The node must be a `While`.
fn while_eval(
    w: &PistoletAST,
    state: &mut ProgStates,
    funcs: &mut FuncDic,
    out: &mut Vec<ValueBind>,
    fuel: u64,
) -> (r: Option<RuntimeErr>)
    ensures
        ({
            let (st2, rr) = eval_while_s(
                view_stmt(*w),
                st3(old(state)@, old(funcs)@, old(out)@),
                fuel as nat,
            );
            final(state)@ == st2.chain && final(funcs)@ == st2.funcs && final(out)@ == st2.out
                && r == rr
        }),
    decreases fuel, height_stmt(view_stmt(*w)), 0int,
{
    match w {
        PistoletAST::While(body, cond) => {
            match seq_eval(body, state, funcs, out, fuel) {
                Some(e) => Some(e),
                None => {
                    match expr_eval(cond, state, funcs, out, fuel) {
                        Err(e) => Some(e),
                        Ok(vb) => match vb.get_value() {
                            VarValue::Bool(true) => None,
                            VarValue::Bool(false) => {
                                if fuel == 0 {
                                    Some(RuntimeErr::StackLimit)
                                } else {
                                    while_eval(w, state, funcs, out, fuel - 1)
                                }
                            },
                            _ => Some(RuntimeErr::TypeMismatch),
                        },
                    }
                },
            }
        },
        _ => Some(RuntimeErr::Unknown),
    }
}

/// How a whole program run ended: normal completion, an unhandled
/// top-level `Return` carrying its value, or a failure.
#[derive(Clone, Copy, Debug, PartialEq, Eq, Structural)]
pub enum RunResult {
    Completed,
    Returned(ValueBind),
    Failed(RuntimeErr),
}

/// Everything a finished run leaves behind: the surviving scope chain, the
/// function table, the output stream, and how the run ended.
pub struct ProgOutcome {
    pub state: ProgStates,
    pub funcs: FuncDic,
    pub out: Vec<ValueBind>,
    pub verdict: RunResult,
}

/// Run a whole program from a fresh state under the given evaluation
/// budget.
pub fn run_program(prog: &PistoletAST, fuel: u64) -> (r: ProgOutcome)
    ensures
        ({
            let (st2, rr) = run_program_s(view_stmt(*prog), fuel as nat);
            r.state@ == st2.chain && r.funcs@ == st2.funcs && r.out@ == st2.out && r.verdict
                == match rr {
                None => RunResult::Completed,
                Some(RuntimeErr::ReturnValue(vb)) => RunResult::Returned(vb),
                Some(err) => RunResult::Failed(err),
            }
        }),
{
    let mut state = ProgStates::new();
    let mut funcs = FuncDic::new();
    let mut out: Vec<ValueBind> = Vec::new();
    proof {
        assert(st3(state@, funcs@, out@) =~= init_state());
    }
    let verdict = match ast_eval(prog, &mut state, &mut funcs, &mut out, fuel) {
        Ok(()) => RunResult::Completed,
        Err(RuntimeErr::ReturnValue(vb)) => RunResult::Returned(vb),
        Err(e) => RunResult::Failed(e),
    };
    ProgOutcome { state, funcs, out, verdict }
}

} // verus!
