use pistolet::ast::{PistoletAST, PistoletExpr, PistoletValue};
use pistolet::interpreter::{ast_eval, expr_eval, run_program, RunResult};
use pistolet::state::{FuncDic, ProgStates};
use pistolet::value::{RuntimeErr, ValueBind, VarValue};

const FUEL: u64 = 100_000;

fn int_lit(n: i128) -> PistoletExpr {
    PistoletExpr::Val(PistoletValue::Integer(n))
}

fn flt_lit(x: f64) -> PistoletExpr {
    PistoletExpr::Val(PistoletValue::Float(x.to_bits()))
}

fn bool_lit(b: bool) -> PistoletExpr {
    PistoletExpr::Val(PistoletValue::Boolean(b))
}

fn var(name: &str) -> PistoletExpr {
    PistoletExpr::Val(PistoletValue::Var(name.to_string()))
}

fn call(name: &str, args: Vec<PistoletExpr>) -> PistoletExpr {
    PistoletExpr::Val(PistoletValue::Funcall(name.to_string(), args))
}

fn let_stmt(name: &str, ty: &str, e: PistoletExpr) -> PistoletAST {
    PistoletAST::Let(name.to_string(), ty.to_string(), e)
}

fn eval_expr_fresh(e: &PistoletExpr) -> Result<ValueBind, RuntimeErr> {
    let mut state = ProgStates::new();
    let mut funcs = FuncDic::new();
    let mut out: Vec<ValueBind> = Vec::new();
    expr_eval(e, &mut state, &mut funcs, &mut out, FUEL)
}

/// A two-parameter integer addition function and a driver that binds its
/// result; mirrors `fun add(a:int)(b:int)->int { return a+b. }`.
fn add_fun() -> PistoletAST {
    PistoletAST::Fun(
        "add".to_string(),
        Box::new(PistoletAST::Paralist(vec![
            PistoletAST::Varbind("a".to_string(), "int".to_string()),
            PistoletAST::Varbind("b".to_string(), "int".to_string()),
        ])),
        "int".to_string(),
        Box::new(PistoletAST::Sequence(vec![PistoletAST::Return(PistoletExpr::Add(
            Box::new(var("a")),
            Box::new(var("b")),
        ))])),
    )
}

#[test]
fn literal_int_evaluates_to_itself() {
    let r = eval_expr_fresh(&int_lit(42)).unwrap();
    assert_eq!(r.get_value(), VarValue::Int(42));
    assert_eq!(r.get_type(), "int".to_string());
}

#[test]
fn literal_float_evaluates_to_itself() {
    let r = eval_expr_fresh(&flt_lit(2.5)).unwrap();
    assert_eq!(r.get_value(), VarValue::Float(2.5f64.to_bits()));
    assert_eq!(r.get_type(), "float".to_string());
}

#[test]
fn literal_bool_evaluates_to_itself() {
    let r = eval_expr_fresh(&bool_lit(true)).unwrap();
    assert_eq!(r.get_value(), VarValue::Bool(true));
    assert_eq!(r.get_type(), "bool".to_string());
}

#[test]
fn let_type_mismatch_introduces_no_binding() {
    let prog = PistoletAST::Sequence(vec![let_stmt("x", "int", flt_lit(1.0))]);
    let outcome = run_program(&prog, FUEL);
    assert_eq!(outcome.verdict, RunResult::Failed(RuntimeErr::TypeMismatch));
    assert_eq!(
        outcome.state.find_var("x".to_string()),
        Err(RuntimeErr::VarUsedBeforeDefine)
    );
}

#[test]
fn let_type_names_compare_case_insensitively() {
    let prog = PistoletAST::Sequence(vec![
        let_stmt("x", "Int", int_lit(1)),
        let_stmt("y", "FLOAT", flt_lit(0.5)),
        let_stmt("z", "Bool", bool_lit(false)),
    ]);
    let outcome = run_program(&prog, FUEL);
    assert_eq!(outcome.verdict, RunResult::Completed);
    assert_eq!(
        outcome.state.find_var("x".to_string()).unwrap().get_value(),
        VarValue::Int(1)
    );
}

#[test]
fn shadowing_inner_frame_wins_then_pop_restores() {
    let mut state = ProgStates::new();
    state.insert("x".to_string(), ValueBind::vb(VarValue::Int(1)));
    state.push_front(pistolet::state::ProgState::new());
    state.insert("x".to_string(), ValueBind::vb(VarValue::Int(2)));
    assert_eq!(
        state.find_var("x".to_string()).unwrap().get_value(),
        VarValue::Int(2)
    );
    state.pop_front();
    assert_eq!(
        state.find_var("x".to_string()).unwrap().get_value(),
        VarValue::Int(1)
    );
}

#[test]
fn lookup_after_pop_fails_without_outer_binding() {
    let mut state = ProgStates::new();
    state.push_front(pistolet::state::ProgState::new());
    state.insert("x".to_string(), ValueBind::vb(VarValue::Int(2)));
    state.pop_front();
    assert_eq!(
        state.find_var("x".to_string()),
        Err(RuntimeErr::VarUsedBeforeDefine)
    );
}

#[test]
fn while_body_runs_once_even_when_condition_already_true() {
    // x is 1 before the loop, so the condition would already read true;
    // the body still runs exactly once, leaving exactly one output line.
    let prog = PistoletAST::Sequence(vec![
        let_stmt("x", "int", int_lit(1)),
        PistoletAST::While(
            Box::new(PistoletAST::Sequence(vec![PistoletAST::PrintLine(int_lit(9))])),
            PistoletExpr::Eq(Box::new(var("x")), Box::new(int_lit(1))),
        ),
    ]);
    let outcome = run_program(&prog, FUEL);
    assert_eq!(outcome.verdict, RunResult::Completed);
    assert_eq!(outcome.out.len(), 1);
    assert_eq!(outcome.out[0].get_value(), VarValue::Int(9));
}

#[test]
fn while_body_sets_condition_and_stops_after_one_pass() {
    let prog = PistoletAST::Sequence(vec![
        let_stmt("x", "int", int_lit(0)),
        PistoletAST::While(
            Box::new(PistoletAST::Sequence(vec![
                let_stmt("x", "int", int_lit(1)),
                PistoletAST::PrintLine(var("x")),
            ])),
            PistoletExpr::Eq(Box::new(var("x")), Box::new(int_lit(1))),
        ),
    ]);
    let outcome = run_program(&prog, FUEL);
    assert_eq!(outcome.verdict, RunResult::Completed);
    assert_eq!(outcome.out.len(), 1);
}

#[test]
fn while_repeats_until_condition_true() {
    // Counts down from 3: the loop frame holds n, rebound each pass.
    let prog = PistoletAST::Sequence(vec![
        let_stmt("n", "int", int_lit(0)),
        PistoletAST::While(
            Box::new(PistoletAST::Sequence(vec![
                PistoletAST::PrintLine(var("n")),
                let_stmt("n", "int", PistoletExpr::Add(Box::new(var("n")), Box::new(int_lit(1)))),
            ])),
            PistoletExpr::Eq(Box::new(var("n")), Box::new(int_lit(3))),
        ),
    ]);
    let outcome = run_program(&prog, FUEL);
    assert_eq!(outcome.verdict, RunResult::Completed);
    let printed: Vec<VarValue> = outcome.out.iter().map(|b| b.get_value()).collect();
    assert_eq!(printed, vec![VarValue::Int(0), VarValue::Int(1), VarValue::Int(2)]);
}

#[test]
fn int_division_truncates() {
    let e = PistoletExpr::Div(Box::new(int_lit(7)), Box::new(int_lit(2)));
    assert_eq!(eval_expr_fresh(&e).unwrap().get_value(), VarValue::Int(3));
    let e2 = PistoletExpr::Div(Box::new(int_lit(-7)), Box::new(int_lit(2)));
    assert_eq!(eval_expr_fresh(&e2).unwrap().get_value(), VarValue::Int(-3));
}

#[test]
fn float_division_is_exact_ieee() {
    let e = PistoletExpr::Div(Box::new(flt_lit(7.0)), Box::new(flt_lit(2.0)));
    assert_eq!(
        eval_expr_fresh(&e).unwrap().get_value(),
        VarValue::Float(3.5f64.to_bits())
    );
}

#[test]
fn int_division_by_zero_fails() {
    let e = PistoletExpr::Div(Box::new(int_lit(5)), Box::new(int_lit(0)));
    assert_eq!(eval_expr_fresh(&e), Err(RuntimeErr::DivideByZero));
}

#[test]
fn float_division_by_zero_fails() {
    let e = PistoletExpr::Div(Box::new(flt_lit(1.0)), Box::new(flt_lit(0.0)));
    assert_eq!(eval_expr_fresh(&e), Err(RuntimeErr::DivideByZero));
}

#[test]
fn float_arithmetic_matches_hardware() {
    let a = 1.5f64;
    let b = 2.25f64;
    let add = PistoletExpr::Add(Box::new(flt_lit(a)), Box::new(flt_lit(b)));
    assert_eq!(
        eval_expr_fresh(&add).unwrap().get_value(),
        VarValue::Float((a + b).to_bits())
    );
    let sub = PistoletExpr::Sub(Box::new(flt_lit(a)), Box::new(flt_lit(b)));
    assert_eq!(
        eval_expr_fresh(&sub).unwrap().get_value(),
        VarValue::Float((a - b).to_bits())
    );
    let mul = PistoletExpr::Mul(Box::new(flt_lit(a)), Box::new(flt_lit(b)));
    assert_eq!(
        eval_expr_fresh(&mul).unwrap().get_value(),
        VarValue::Float((a * b).to_bits())
    );
}

#[test]
fn float_equality_is_ieee() {
    let zeros = PistoletExpr::Eq(Box::new(flt_lit(0.0)), Box::new(flt_lit(-0.0)));
    assert_eq!(eval_expr_fresh(&zeros).unwrap().get_value(), VarValue::Bool(true));
    let nans = PistoletExpr::Eq(Box::new(flt_lit(f64::NAN)), Box::new(flt_lit(f64::NAN)));
    assert_eq!(eval_expr_fresh(&nans).unwrap().get_value(), VarValue::Bool(false));
}

#[test]
fn mixed_operand_types_fail_arith() {
    let e = PistoletExpr::Add(Box::new(int_lit(1)), Box::new(flt_lit(1.0)));
    assert_eq!(eval_expr_fresh(&e), Err(RuntimeErr::TypeMismatch));
    let e2 = PistoletExpr::Add(Box::new(bool_lit(true)), Box::new(bool_lit(false)));
    assert_eq!(eval_expr_fresh(&e2), Err(RuntimeErr::TypeMismatch));
}

#[test]
fn boolean_operators_follow_truth_tables() {
    let and = PistoletExpr::And(Box::new(bool_lit(true)), Box::new(bool_lit(false)));
    assert_eq!(eval_expr_fresh(&and).unwrap().get_value(), VarValue::Bool(false));
    let orb = PistoletExpr::Orb(Box::new(bool_lit(true)), Box::new(bool_lit(false)));
    assert_eq!(eval_expr_fresh(&orb).unwrap().get_value(), VarValue::Bool(true));
    let nand = PistoletExpr::Nand(Box::new(bool_lit(true)), Box::new(bool_lit(true)));
    assert_eq!(eval_expr_fresh(&nand).unwrap().get_value(), VarValue::Bool(false));
}

#[test]
fn equality_on_booleans_is_a_type_mismatch() {
    let e = PistoletExpr::Eq(Box::new(bool_lit(true)), Box::new(bool_lit(true)));
    assert_eq!(eval_expr_fresh(&e), Err(RuntimeErr::TypeMismatch));
}

#[test]
fn integer_addition_wraps() {
    let e = PistoletExpr::Add(Box::new(int_lit(i128::MAX)), Box::new(int_lit(1)));
    assert_eq!(eval_expr_fresh(&e).unwrap().get_value(), VarValue::Int(i128::MIN));
    let d = PistoletExpr::Div(Box::new(int_lit(i128::MIN)), Box::new(int_lit(-1)));
    assert_eq!(eval_expr_fresh(&d).unwrap().get_value(), VarValue::Int(i128::MIN));
}

#[test]
fn function_call_returns_sum() {
    let prog = PistoletAST::Sequence(vec![
        add_fun(),
        let_stmt("r", "int", call("add", vec![int_lit(2), int_lit(3)])),
    ]);
    let outcome = run_program(&prog, FUEL);
    assert_eq!(outcome.verdict, RunResult::Completed);
    let r = outcome.state.find_var("r".to_string()).unwrap();
    assert_eq!(r.get_value(), VarValue::Int(5));
    assert_eq!(r.get_type(), "int".to_string());
}

#[test]
fn function_call_with_one_argument_fails_arity() {
    let prog = PistoletAST::Sequence(vec![
        add_fun(),
        let_stmt("r", "int", call("add", vec![int_lit(2)])),
    ]);
    let outcome = run_program(&prog, FUEL);
    assert_eq!(outcome.verdict, RunResult::Failed(RuntimeErr::ArityMismatch));
}

#[test]
fn function_call_argument_type_mismatch_fails_before_body() {
    // The body would print before returning; a bad first argument must
    // leave the output stream empty.
    let noisy = PistoletAST::Fun(
        "noisy".to_string(),
        Box::new(PistoletAST::Paralist(vec![PistoletAST::Varbind(
            "a".to_string(),
            "int".to_string(),
        )])),
        "int".to_string(),
        Box::new(PistoletAST::Sequence(vec![
            PistoletAST::PrintLine(int_lit(1)),
            PistoletAST::Return(var("a")),
        ])),
    );
    let prog = PistoletAST::Sequence(vec![
        noisy,
        let_stmt("r", "int", call("noisy", vec![bool_lit(true)])),
    ]);
    let outcome = run_program(&prog, FUEL);
    assert_eq!(outcome.verdict, RunResult::Failed(RuntimeErr::TypeMismatch));
    assert!(outcome.out.is_empty());
}

#[test]
fn function_body_without_return_fails_missing_return() {
    let noret = PistoletAST::Fun(
        "noret".to_string(),
        Box::new(PistoletAST::Paralist(vec![])),
        "int".to_string(),
        Box::new(PistoletAST::Sequence(vec![let_stmt("t", "int", int_lit(1))])),
    );
    let prog = PistoletAST::Sequence(vec![
        noret,
        let_stmt("r", "int", call("noret", vec![])),
    ]);
    let outcome = run_program(&prog, FUEL);
    assert_eq!(outcome.verdict, RunResult::Failed(RuntimeErr::MissingReturn));
}

#[test]
fn function_return_type_mismatch_fails() {
    let wrong = PistoletAST::Fun(
        "wrong".to_string(),
        Box::new(PistoletAST::Paralist(vec![])),
        "bool".to_string(),
        Box::new(PistoletAST::Sequence(vec![PistoletAST::Return(int_lit(1))])),
    );
    let prog = PistoletAST::Sequence(vec![
        wrong,
        let_stmt("r", "bool", call("wrong", vec![])),
    ]);
    let outcome = run_program(&prog, FUEL);
    assert_eq!(outcome.verdict, RunResult::Failed(RuntimeErr::TypeMismatch));
}

#[test]
fn recursive_factorial_returns_120() {
    // fun fact(n:int)->int { if n == 0 { return 1 } else { return n * fact(n-1) } }
    let fact = PistoletAST::Fun(
        "fact".to_string(),
        Box::new(PistoletAST::Paralist(vec![PistoletAST::Varbind(
            "n".to_string(),
            "int".to_string(),
        )])),
        "int".to_string(),
        Box::new(PistoletAST::Sequence(vec![PistoletAST::If(
            PistoletExpr::Eq(Box::new(var("n")), Box::new(int_lit(0))),
            Box::new(PistoletAST::Sequence(vec![PistoletAST::Return(int_lit(1))])),
            Box::new(PistoletAST::Sequence(vec![PistoletAST::Return(PistoletExpr::Mul(
                Box::new(var("n")),
                Box::new(call(
                    "fact",
                    vec![PistoletExpr::Sub(Box::new(var("n")), Box::new(int_lit(1)))],
                )),
            ))])),
        )])),
    );
    let prog = PistoletAST::Sequence(vec![
        fact,
        let_stmt("r", "int", call("fact", vec![int_lit(5)])),
    ]);
    let outcome = run_program(&prog, FUEL);
    assert_eq!(outcome.verdict, RunResult::Completed);
    assert_eq!(
        outcome.state.find_var("r".to_string()).unwrap().get_value(),
        VarValue::Int(120)
    );
}

#[test]
fn callee_sees_callers_open_block_bindings() {
    // The call is made inside an if-branch that binds y; the callee reads
    // y through the shared chain: the dynamic-scope behaviour of the
    // shared frame stack.
    let reader = PistoletAST::Fun(
        "reader".to_string(),
        Box::new(PistoletAST::Paralist(vec![])),
        "int".to_string(),
        Box::new(PistoletAST::Sequence(vec![PistoletAST::Return(var("y"))])),
    );
    let prog = PistoletAST::Sequence(vec![
        reader,
        PistoletAST::If(
            bool_lit(true),
            Box::new(PistoletAST::Sequence(vec![
                let_stmt("y", "int", int_lit(6)),
                PistoletAST::PrintLine(call("reader", vec![])),
            ])),
            Box::new(PistoletAST::Sequence(vec![])),
        ),
    ]);
    let outcome = run_program(&prog, FUEL);
    assert_eq!(outcome.verdict, RunResult::Completed);
    assert_eq!(outcome.out.len(), 1);
    assert_eq!(outcome.out[0].get_value(), VarValue::Int(6));
}

#[test]
fn if_frame_is_popped_after_branch() {
    let prog = PistoletAST::Sequence(vec![
        PistoletAST::If(
            bool_lit(true),
            Box::new(PistoletAST::Sequence(vec![let_stmt("t", "int", int_lit(1))])),
            Box::new(PistoletAST::Sequence(vec![])),
        ),
    ]);
    let outcome = run_program(&prog, FUEL);
    assert_eq!(outcome.verdict, RunResult::Completed);
    assert_eq!(
        outcome.state.find_var("t".to_string()),
        Err(RuntimeErr::VarUsedBeforeDefine)
    );
    assert_eq!(outcome.state.states.len(), 1);
}

#[test]
fn non_boolean_condition_fails() {
    let prog = PistoletAST::Sequence(vec![PistoletAST::If(
        int_lit(1),
        Box::new(PistoletAST::Sequence(vec![])),
        Box::new(PistoletAST::Sequence(vec![])),
    )]);
    let outcome = run_program(&prog, FUEL);
    assert_eq!(outcome.verdict, RunResult::Failed(RuntimeErr::TypeMismatch));
}

#[test]
fn undefined_variable_fails() {
    assert_eq!(eval_expr_fresh(&var("ghostvar")), Err(RuntimeErr::VarUsedBeforeDefine));
}

#[test]
fn undefined_function_fails() {
    assert_eq!(
        eval_expr_fresh(&call("nosuch", vec![])),
        Err(RuntimeErr::FunctionUndefined)
    );
}

#[test]
fn redeclaring_a_function_overwrites_it() {
    let one = PistoletAST::Fun(
        "f".to_string(),
        Box::new(PistoletAST::Paralist(vec![])),
        "int".to_string(),
        Box::new(PistoletAST::Sequence(vec![PistoletAST::Return(int_lit(1))])),
    );
    let two = PistoletAST::Fun(
        "f".to_string(),
        Box::new(PistoletAST::Paralist(vec![])),
        "int".to_string(),
        Box::new(PistoletAST::Sequence(vec![PistoletAST::Return(int_lit(2))])),
    );
    let prog = PistoletAST::Sequence(vec![
        one,
        two,
        let_stmt("r", "int", call("f", vec![])),
    ]);
    let outcome = run_program(&prog, FUEL);
    assert_eq!(outcome.verdict, RunResult::Completed);
    assert_eq!(
        outcome.state.find_var("r".to_string()).unwrap().get_value(),
        VarValue::Int(2)
    );
}

#[test]
fn top_level_return_is_the_program_result() {
    let prog = PistoletAST::Sequence(vec![PistoletAST::Return(int_lit(7))]);
    let outcome = run_program(&prog, FUEL);
    assert_eq!(
        outcome.verdict,
        RunResult::Returned(ValueBind::vb(VarValue::Int(7)))
    );
}

#[test]
fn never_true_loop_exhausts_the_budget() {
    let prog = PistoletAST::Sequence(vec![PistoletAST::While(
        Box::new(PistoletAST::Sequence(vec![])),
        bool_lit(false),
    )]);
    let outcome = run_program(&prog, 10);
    assert_eq!(outcome.verdict, RunResult::Failed(RuntimeErr::StackLimit));
}

#[test]
fn unbounded_recursion_exhausts_the_budget() {
    let looper = PistoletAST::Fun(
        "looper".to_string(),
        Box::new(PistoletAST::Paralist(vec![])),
        "int".to_string(),
        Box::new(PistoletAST::Sequence(vec![PistoletAST::Return(call("looper", vec![]))])),
    );
    let prog = PistoletAST::Sequence(vec![
        looper,
        let_stmt("r", "int", call("looper", vec![])),
    ]);
    let outcome = run_program(&prog, 50);
    assert_eq!(outcome.verdict, RunResult::Failed(RuntimeErr::StackLimit));
}

#[test]
fn bare_parameter_nodes_are_unknown_statements() {
    let prog = PistoletAST::Sequence(vec![PistoletAST::Varbind(
        "a".to_string(),
        "int".to_string(),
    )]);
    let outcome = run_program(&prog, FUEL);
    assert_eq!(outcome.verdict, RunResult::Failed(RuntimeErr::Unknown));
}

#[test]
fn eoi_is_a_no_op() {
    let prog = PistoletAST::Sequence(vec![PistoletAST::EOI]);
    let outcome = run_program(&prog, FUEL);
    assert_eq!(outcome.verdict, RunResult::Completed);
}

#[test]
fn errors_stop_a_sequence_early() {
    let prog = PistoletAST::Sequence(vec![
        PistoletAST::PrintLine(int_lit(1)),
        let_stmt("x", "int", flt_lit(1.0)),
        PistoletAST::PrintLine(int_lit(2)),
    ]);
    let outcome = run_program(&prog, FUEL);
    assert_eq!(outcome.verdict, RunResult::Failed(RuntimeErr::TypeMismatch));
    assert_eq!(outcome.out.len(), 1);
}

#[test]
fn ast_eval_threads_one_shared_state() {
    let mut state = ProgStates::new();
    let mut funcs = FuncDic::new();
    let mut out: Vec<ValueBind> = Vec::new();
    let stmt = let_stmt("a", "int", int_lit(3));
    assert!(ast_eval(&stmt, &mut state, &mut funcs, &mut out, FUEL).is_ok());
    assert_eq!(
        state.find_var("a".to_string()).unwrap().get_value(),
        VarValue::Int(3)
    );
}

#[test]
fn boolean_operator_on_numbers_fails() {
    let e = PistoletExpr::And(Box::new(int_lit(1)), Box::new(int_lit(0)));
    assert_eq!(eval_expr_fresh(&e), Err(RuntimeErr::TypeMismatch));
}

#[test]
fn parameter_types_compare_case_insensitively() {
    let f = PistoletAST::Fun(
        "ident".to_string(),
        Box::new(PistoletAST::Paralist(vec![PistoletAST::Varbind(
            "a".to_string(),
            "INT".to_string(),
        )])),
        "Int".to_string(),
        Box::new(PistoletAST::Sequence(vec![PistoletAST::Return(var("a"))])),
    );
    let prog = PistoletAST::Sequence(vec![
        f,
        let_stmt("r", "int", call("ident", vec![int_lit(4)])),
    ]);
    let outcome = run_program(&prog, FUEL);
    assert_eq!(outcome.verdict, RunResult::Completed);
    assert_eq!(
        outcome.state.find_var("r".to_string()).unwrap().get_value(),
        VarValue::Int(4)
    );
}

#[test]
fn malformed_parameter_list_is_unknown() {
    let broken = PistoletAST::Fun(
        "broken".to_string(),
        Box::new(PistoletAST::EOI),
        "int".to_string(),
        Box::new(PistoletAST::Sequence(vec![PistoletAST::Return(int_lit(1))])),
    );
    let prog = PistoletAST::Sequence(vec![
        broken,
        let_stmt("r", "int", call("broken", vec![])),
    ]);
    let outcome = run_program(&prog, FUEL);
    assert_eq!(outcome.verdict, RunResult::Failed(RuntimeErr::Unknown));
}
