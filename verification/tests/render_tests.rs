use pistolet::ast::{PistoletAST, PistoletExpr, PistoletValue};
use pistolet::interpreter::{run_program, RunResult};
use pistolet::numfmt::int_to_text;
use pistolet::render::{render_line, render_output, render_state, render_value};
use pistolet::state::{ProgState, ProgStates};
use pistolet::value::{RuntimeErr, ValueBind, VarValue};

use rustc_apfloat::ieee::Double;
use rustc_apfloat::Float;

#[test]
fn integers_render_in_decimal() {
    assert_eq!(int_to_text(0), "0".to_string());
    assert_eq!(int_to_text(120), "120".to_string());
    assert_eq!(int_to_text(-42), "-42".to_string());
    assert_eq!(
        int_to_text(i128::MIN),
        "-170141183460469231731687303715884105728".to_string()
    );
    assert_eq!(
        int_to_text(i128::MAX),
        "170141183460469231731687303715884105727".to_string()
    );
}

#[test]
fn booleans_render_as_their_words() {
    assert_eq!(render_value(&VarValue::Bool(true)), "true".to_string());
    assert_eq!(render_value(&VarValue::Bool(false)), "false".to_string());
}

#[test]
fn floats_render_as_the_software_float_prints() {
    let bits = 3.5f64.to_bits();
    let expected = format!("{}", Double::from_bits(bits as u128));
    assert_eq!(render_value(&VarValue::Float(bits)), expected);
}

#[test]
fn output_lines_carry_value_and_type() {
    assert_eq!(
        render_line(&ValueBind::vb(VarValue::Int(5))),
        "5 : int".to_string()
    );
    assert_eq!(
        render_line(&ValueBind::vb(VarValue::Bool(true))),
        "true : bool".to_string()
    );
}

#[test]
fn printline_output_renders_in_order() {
    let prog = PistoletAST::Sequence(vec![
        PistoletAST::PrintLine(PistoletExpr::Val(PistoletValue::Integer(1))),
        PistoletAST::PrintLine(PistoletExpr::Val(PistoletValue::Boolean(false))),
    ]);
    let outcome = run_program(&prog, 1000);
    assert_eq!(outcome.verdict, RunResult::Completed);
    let lines = render_output(&outcome.out);
    assert_eq!(lines, vec!["1 : int".to_string(), "false : bool".to_string()]);
}

#[test]
fn state_report_lists_surviving_bindings() {
    let prog = PistoletAST::Sequence(vec![
        PistoletAST::Let(
            "a".to_string(),
            "int".to_string(),
            PistoletExpr::Val(PistoletValue::Integer(1)),
        ),
        PistoletAST::Let(
            "b".to_string(),
            "bool".to_string(),
            PistoletExpr::Val(PistoletValue::Boolean(true)),
        ),
    ]);
    let outcome = run_program(&prog, 1000);
    assert_eq!(outcome.verdict, RunResult::Completed);
    let report = render_state(&outcome.state);
    assert_eq!(
        report,
        vec![
            "Var: a    Type: int    Value: 1".to_string(),
            "Var: b    Type: bool    Value: true".to_string(),
        ]
    );
}

#[test]
fn rebinding_a_name_keeps_one_report_line() {
    let mut state = ProgStates::new();
    state.insert("x".to_string(), ValueBind::vb(VarValue::Int(1)));
    state.insert("x".to_string(), ValueBind::vb(VarValue::Int(2)));
    let report = render_state(&state);
    assert_eq!(report, vec!["Var: x    Type: int    Value: 2".to_string()]);
}

#[test]
fn frame_replaces_in_place() {
    let mut frame = ProgState::new();
    frame.insert("k".to_string(), ValueBind::vb(VarValue::Int(1)));
    frame.insert("k".to_string(), ValueBind::vb(VarValue::Int(2)));
    assert_eq!(frame.vars.len(), 1);
    assert_eq!(
        frame.get(&"k".to_string()),
        Some(ValueBind::vb(VarValue::Int(2)))
    );
}

#[test]
fn error_messages_name_the_failure() {
    assert_eq!(
        RuntimeErr::TypeMismatch.message(),
        "[Error] Type mismatch in an expression".to_string()
    );
    assert_eq!(
        RuntimeErr::VarUsedBeforeDefine.message(),
        "[Error] Var used before defined".to_string()
    );
    assert_eq!(
        RuntimeErr::DivideByZero.message(),
        "[Error] Attempt to divide by zero".to_string()
    );
    assert_eq!(
        RuntimeErr::ReturnValue(ValueBind::vb(VarValue::Int(7))).message(),
        "[Return] Exit with int : 7".to_string()
    );
}
