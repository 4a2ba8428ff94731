//! Abstract syntax of the Pistolet language: expressions and statements.
//!
//! Numeric literals arrive pre-parsed: integers as `i128`, floats as the
//! IEEE double-precision bit pattern (a `u64`), so that the evaluator's
//! semantics can be stated over plain values.
//!
//! Each executable tree type has a ghost mirror (`SpecVal`, `SpecExpr`,
//! `SpecAst`) over `Seq`, which the semantics in `semantics` is defined on;
//! `view_expr` and `view_stmt` map a tree to its mirror.

use vstd::prelude::*;

verus! {

/// A leaf of an expression: a literal, a variable reference, or a call.
pub enum PistoletValue {
    /// Signed integer literal.
    Integer(i128),
    /// Float literal, as the bit pattern of an IEEE double.
    Float(u64),
    /// Boolean literal.
    Boolean(bool),
    /// Reference to a variable, resolved through the scope chain.
    Var(String),
    /// Call of a named function with ordered argument expressions.
    Funcall(String, Vec<PistoletExpr>),
}

/// An expression tree.
pub enum PistoletExpr {
    Val(PistoletValue),
    Add(Box<PistoletExpr>, Box<PistoletExpr>),
    Sub(Box<PistoletExpr>, Box<PistoletExpr>),
    Mul(Box<PistoletExpr>, Box<PistoletExpr>),
    Div(Box<PistoletExpr>, Box<PistoletExpr>),
    And(Box<PistoletExpr>, Box<PistoletExpr>),
    Orb(Box<PistoletExpr>, Box<PistoletExpr>),
    Nand(Box<PistoletExpr>, Box<PistoletExpr>),
    Eq(Box<PistoletExpr>, Box<PistoletExpr>),
}

/// A statement tree.
pub enum PistoletAST {
    /// Ordered sequence of statements.
    Sequence(Vec<PistoletAST>),
    /// `Let(name, declared type, expression)`.
    Let(String, String, PistoletExpr),
    /// `If(condition, then branch, else branch)`; each branch is a sequence.
    If(PistoletExpr, Box<PistoletAST>, Box<PistoletAST>),
    /// `While(body, condition)`: the body runs first, and the loop repeats
    /// while the condition evaluates to false ("repeat until true").
    While(Box<PistoletAST>, PistoletExpr),
    /// Evaluate an expression and signal a control transfer carrying it.
    Return(PistoletExpr),
    /// One parameter descriptor `(name, type)`.
    Varbind(String, String),
    /// An ordered list of `Varbind` parameter descriptors.
    Paralist(Vec<PistoletAST>),
    /// `Fun(name, parameter list, return type, body)`.
    Fun(String, Box<PistoletAST>, String, Box<PistoletAST>),
    /// Evaluate an expression and emit its value on the output stream.
    PrintLine(PistoletExpr),
    /// End-of-input marker; a no-op.
    EOI,
}

/// The input boundary of the evaluator. Source text is turned into a
/// `PistoletAST` by a grammar-driven parser that lives outside this
/// library; this type names that boundary, and everything the library
/// states is about the trees such a parser hands in.
pub struct PistoletParser;

/// Ghost mirror of `PistoletValue`, over mathematical sequences.
#[verifier::ext_equal]
pub ghost enum SpecVal {
    Int(i128),
    Float(u64),
    Bool(bool),
    Var(Seq<char>),
    Call(Seq<char>, Seq<SpecExpr>),
}

/// Ghost mirror of `PistoletExpr`.
#[verifier::ext_equal]
pub ghost enum SpecExpr {
    Val(SpecVal),
    Add(Box<SpecExpr>, Box<SpecExpr>),
    Sub(Box<SpecExpr>, Box<SpecExpr>),
    Mul(Box<SpecExpr>, Box<SpecExpr>),
    Div(Box<SpecExpr>, Box<SpecExpr>),
    And(Box<SpecExpr>, Box<SpecExpr>),
    Orb(Box<SpecExpr>, Box<SpecExpr>),
    Nand(Box<SpecExpr>, Box<SpecExpr>),
    Eq(Box<SpecExpr>, Box<SpecExpr>),
}

/// Ghost mirror of `PistoletAST`.
#[verifier::ext_equal]
pub ghost enum SpecAst {
    Sequence(Seq<SpecAst>),
    Let(Seq<char>, Seq<char>, SpecExpr),
    If(SpecExpr, Box<SpecAst>, Box<SpecAst>),
    While(Box<SpecAst>, SpecExpr),
    Return(SpecExpr),
    Varbind(Seq<char>, Seq<char>),
    Paralist(Seq<SpecAst>),
    Fun(Seq<char>, Box<SpecAst>, Seq<char>, Box<SpecAst>),
    PrintLine(SpecExpr),
    EOI,
}

/// Ghost mirror of a value node.
pub open spec fn view_val(v: PistoletValue) -> SpecVal
    decreases v,
{
    match v {
        PistoletValue::Integer(n) => SpecVal::Int(n),
        PistoletValue::Float(b) => SpecVal::Float(b),
        PistoletValue::Boolean(b) => SpecVal::Bool(b),
        PistoletValue::Var(s) => SpecVal::Var(s@),
        PistoletValue::Funcall(n, args) => SpecVal::Call(n@, view_expr_list(args@)),
    }
}

/// Ghost mirror of an expression.
pub open spec fn view_expr(e: PistoletExpr) -> SpecExpr
    decreases e,
{
    match e {
        PistoletExpr::Val(v) => SpecExpr::Val(view_val(v)),
        PistoletExpr::Add(a, b) => SpecExpr::Add(Box::new(view_expr(*a)), Box::new(view_expr(*b))),
        PistoletExpr::Sub(a, b) => SpecExpr::Sub(Box::new(view_expr(*a)), Box::new(view_expr(*b))),
        PistoletExpr::Mul(a, b) => SpecExpr::Mul(Box::new(view_expr(*a)), Box::new(view_expr(*b))),
        PistoletExpr::Div(a, b) => SpecExpr::Div(Box::new(view_expr(*a)), Box::new(view_expr(*b))),
        PistoletExpr::And(a, b) => SpecExpr::And(Box::new(view_expr(*a)), Box::new(view_expr(*b))),
        PistoletExpr::Orb(a, b) => SpecExpr::Orb(Box::new(view_expr(*a)), Box::new(view_expr(*b))),
        PistoletExpr::Nand(a, b) => SpecExpr::Nand(
            Box::new(view_expr(*a)),
            Box::new(view_expr(*b)),
        ),
        PistoletExpr::Eq(a, b) => SpecExpr::Eq(Box::new(view_expr(*a)), Box::new(view_expr(*b))),
    }
}

/// Elementwise ghost mirror of a sequence of expressions.
pub open spec fn view_expr_list(s: Seq<PistoletExpr>) -> Seq<SpecExpr>
    decreases s,
{
    if s.len() == 0 {
        Seq::empty()
    } else {
        seq![view_expr(s[0])] + view_expr_list(s.subrange(1, s.len() as int))
    }
}

/// Ghost mirror of a statement.
pub open spec fn view_stmt(a: PistoletAST) -> SpecAst
    decreases a,
{
    match a {
        PistoletAST::Sequence(terms) => SpecAst::Sequence(view_stmt_list(terms@)),
        PistoletAST::Let(n, t, e) => SpecAst::Let(n@, t@, view_expr(e)),
        PistoletAST::If(c, bt, bf) => SpecAst::If(
            view_expr(c),
            Box::new(view_stmt(*bt)),
            Box::new(view_stmt(*bf)),
        ),
        PistoletAST::While(body, c) => SpecAst::While(Box::new(view_stmt(*body)), view_expr(c)),
        PistoletAST::Return(e) => SpecAst::Return(view_expr(e)),
        PistoletAST::Varbind(n, t) => SpecAst::Varbind(n@, t@),
        PistoletAST::Paralist(binds) => SpecAst::Paralist(view_stmt_list(binds@)),
        PistoletAST::Fun(n, params, t, body) => SpecAst::Fun(
            n@,
            Box::new(view_stmt(*params)),
            t@,
            Box::new(view_stmt(*body)),
        ),
        PistoletAST::PrintLine(e) => SpecAst::PrintLine(view_expr(e)),
        PistoletAST::EOI => SpecAst::EOI,
    }
}

/// Elementwise ghost mirror of a sequence of statements.
pub open spec fn view_stmt_list(s: Seq<PistoletAST>) -> Seq<SpecAst>
    decreases s,
{
    if s.len() == 0 {
        Seq::empty()
    } else {
        seq![view_stmt(s[0])] + view_stmt_list(s.subrange(1, s.len() as int))
    }
}

/// Height of a ghost value node, for termination measures.
pub open spec fn height_val(v: SpecVal) -> nat
    decreases v,
{
    match v {
        SpecVal::Call(_, args) => 1 + height_expr_list(args),
        _ => 1,
    }
}

/// Height of a ghost expression.
pub open spec fn height_expr(e: SpecExpr) -> nat
    decreases e,
{
    match e {
        SpecExpr::Val(v) => 1 + height_val(v),
        SpecExpr::Add(a, b) => 1 + height_expr(*a) + height_expr(*b),
        SpecExpr::Sub(a, b) => 1 + height_expr(*a) + height_expr(*b),
        SpecExpr::Mul(a, b) => 1 + height_expr(*a) + height_expr(*b),
        SpecExpr::Div(a, b) => 1 + height_expr(*a) + height_expr(*b),
        SpecExpr::And(a, b) => 1 + height_expr(*a) + height_expr(*b),
        SpecExpr::Orb(a, b) => 1 + height_expr(*a) + height_expr(*b),
        SpecExpr::Nand(a, b) => 1 + height_expr(*a) + height_expr(*b),
        SpecExpr::Eq(a, b) => 1 + height_expr(*a) + height_expr(*b),
    }
}

/// Height of a sequence of ghost expressions.
pub open spec fn height_expr_list(s: Seq<SpecExpr>) -> nat
    decreases s,
{
    if s.len() == 0 {
        0
    } else {
        1 + height_expr(s[0]) + height_expr_list(s.subrange(1, s.len() as int))
    }
}

/// Height of a ghost statement.
pub open spec fn height_stmt(s: SpecAst) -> nat
    decreases s,
{
    match s {
        SpecAst::Sequence(l) => 1 + height_stmt_list(l),
        SpecAst::Let(_, _, e) => 1 + height_expr(e),
        SpecAst::If(c, bt, bf) => 1 + height_expr(c) + height_stmt(*bt) + height_stmt(*bf),
        SpecAst::While(body, c) => 1 + height_stmt(*body) + height_expr(c),
        SpecAst::Return(e) => 1 + height_expr(e),
        SpecAst::Varbind(_, _) => 1,
        SpecAst::Paralist(l) => 1 + height_stmt_list(l),
        SpecAst::Fun(_, params, _, body) => 1 + height_stmt(*params) + height_stmt(*body),
        SpecAst::PrintLine(e) => 1 + height_expr(e),
        SpecAst::EOI => 1,
    }
}

/// Height of a sequence of ghost statements.
pub open spec fn height_stmt_list(s: Seq<SpecAst>) -> nat
    decreases s,
{
    if s.len() == 0 {
        0
    } else {
        1 + height_stmt(s[0]) + height_stmt_list(s.subrange(1, s.len() as int))
    }
}

/// Mirroring a list of expressions commutes with appending one element.
pub proof fn lemma_view_expr_list_push(s: Seq<PistoletExpr>, x: PistoletExpr)
    ensures
        view_expr_list(s.push(x)) == view_expr_list(s).push(view_expr(x)),
    decreases s.len(),
{
    reveal_with_fuel(view_expr_list, 3);
    if s.len() == 0 {
        assert(s.push(x)[0] == x);
        assert(s.push(x).subrange(1, s.push(x).len() as int) =~= Seq::<PistoletExpr>::empty());
        assert(view_expr_list(s.push(x)) =~= view_expr_list(s).push(view_expr(x)));
    } else {
        lemma_view_expr_list_push(s.subrange(1, s.len() as int), x);
        assert(s.push(x)[0] == s[0]);
        assert(s.push(x).subrange(1, s.push(x).len() as int) =~= s.subrange(
            1,
            s.len() as int,
        ).push(x));
        assert(view_expr_list(s.push(x)) =~= view_expr_list(s).push(view_expr(x)));
    }
}

/// Mirroring a list of statements commutes with appending one element.
pub proof fn lemma_view_stmt_list_push(s: Seq<PistoletAST>, x: PistoletAST)
    ensures
        view_stmt_list(s.push(x)) == view_stmt_list(s).push(view_stmt(x)),
    decreases s.len(),
{
    reveal_with_fuel(view_stmt_list, 3);
    if s.len() == 0 {
        assert(s.push(x)[0] == x);
        assert(s.push(x).subrange(1, s.push(x).len() as int) =~= Seq::<PistoletAST>::empty());
        assert(view_stmt_list(s.push(x)) =~= view_stmt_list(s).push(view_stmt(x)));
    } else {
        lemma_view_stmt_list_push(s.subrange(1, s.len() as int), x);
        assert(s.push(x)[0] == s[0]);
        assert(s.push(x).subrange(1, s.push(x).len() as int) =~= s.subrange(
            1,
            s.len() as int,
        ).push(x));
        assert(view_stmt_list(s.push(x)) =~= view_stmt_list(s).push(view_stmt(x)));
    }
}

/// Structural copy of a value node; it mirrors to the same ghost value.
pub fn clone_value(v: &PistoletValue) -> (r: PistoletValue)
    ensures
        view_val(r) == view_val(*v),
    decreases *v,
{
    match v {
        PistoletValue::Integer(n) => PistoletValue::Integer(*n),
        PistoletValue::Float(b) => PistoletValue::Float(*b),
        PistoletValue::Boolean(b) => PistoletValue::Boolean(*b),
        PistoletValue::Var(name) => PistoletValue::Var(name.clone()),
        PistoletValue::Funcall(name, args) => PistoletValue::Funcall(
            name.clone(),
            clone_expr_vec(args),
        ),
    }
}

/// Structural copy of an expression; it mirrors to the same ghost value.
pub fn clone_expr(e: &PistoletExpr) -> (r: PistoletExpr)
    ensures
        view_expr(r) == view_expr(*e),
    decreases *e,
{
    match e {
        PistoletExpr::Val(v) => PistoletExpr::Val(clone_value(v)),
        PistoletExpr::Add(a, b) => PistoletExpr::Add(Box::new(clone_expr(a)), Box::new(clone_expr(b))),
        PistoletExpr::Sub(a, b) => PistoletExpr::Sub(Box::new(clone_expr(a)), Box::new(clone_expr(b))),
        PistoletExpr::Mul(a, b) => PistoletExpr::Mul(Box::new(clone_expr(a)), Box::new(clone_expr(b))),
        PistoletExpr::Div(a, b) => PistoletExpr::Div(Box::new(clone_expr(a)), Box::new(clone_expr(b))),
        PistoletExpr::And(a, b) => PistoletExpr::And(Box::new(clone_expr(a)), Box::new(clone_expr(b))),
        PistoletExpr::Orb(a, b) => PistoletExpr::Orb(Box::new(clone_expr(a)), Box::new(clone_expr(b))),
        PistoletExpr::Nand(a, b) => PistoletExpr::Nand(Box::new(clone_expr(a)), Box::new(clone_expr(b))),
        PistoletExpr::Eq(a, b) => PistoletExpr::Eq(Box::new(clone_expr(a)), Box::new(clone_expr(b))),
    }
}

/// Elementwise structural copy of a vector of expressions.
pub fn clone_expr_vec(v: &Vec<PistoletExpr>) -> (r: Vec<PistoletExpr>)
    ensures
        view_expr_list(r@) == view_expr_list(v@),
    decreases v@,
{
    let mut cloned: Vec<PistoletExpr> = Vec::new();
    let mut i: usize = 0;
    while i < v.len()
        invariant
            i <= v.len(),
            view_expr_list(cloned@) == view_expr_list(v@.subrange(0, i as int)),
        decreases v@.len() - i,
    {
        assert(decreases_to!(v@ => v@[i as int]));
        let c = clone_expr(&v[i]);
        proof {
            lemma_view_expr_list_push(cloned@, c);
            lemma_view_expr_list_push(v@.subrange(0, i as int), v@[i as int]);
            assert(v@.subrange(0, i as int).push(v@[i as int]) =~= v@.subrange(0, i as int + 1));
        }
        cloned.push(c);
        i = i + 1;
    }
    proof {
        assert(v@.subrange(0, v@.len() as int) =~= v@);
    }
    cloned
}

/// Structural copy of a statement tree; it mirrors to the same ghost value.
pub fn clone_ast(a: &PistoletAST) -> (r: PistoletAST)
    ensures
        view_stmt(r) == view_stmt(*a),
    decreases *a,
{
    match a {
        PistoletAST::Sequence(terms) => PistoletAST::Sequence(clone_ast_vec(terms)),
        PistoletAST::Let(n, t, e) => PistoletAST::Let(n.clone(), t.clone(), clone_expr(e)),
        PistoletAST::If(c, bt, bf) => PistoletAST::If(
            clone_expr(c),
            Box::new(clone_ast(bt)),
            Box::new(clone_ast(bf)),
        ),
        PistoletAST::While(body, c) => PistoletAST::While(Box::new(clone_ast(body)), clone_expr(c)),
        PistoletAST::Return(e) => PistoletAST::Return(clone_expr(e)),
        PistoletAST::Varbind(n, t) => PistoletAST::Varbind(n.clone(), t.clone()),
        PistoletAST::Paralist(binds) => PistoletAST::Paralist(clone_ast_vec(binds)),
        PistoletAST::Fun(n, params, t, body) => PistoletAST::Fun(
            n.clone(),
            Box::new(clone_ast(params)),
            t.clone(),
            Box::new(clone_ast(body)),
        ),
        PistoletAST::PrintLine(e) => PistoletAST::PrintLine(clone_expr(e)),
        PistoletAST::EOI => PistoletAST::EOI,
    }
}

/// Elementwise structural copy of a vector of statements.
pub fn clone_ast_vec(v: &Vec<PistoletAST>) -> (r: Vec<PistoletAST>)
    ensures
        view_stmt_list(r@) == view_stmt_list(v@),
    decreases v@,
{
    let mut cloned: Vec<PistoletAST> = Vec::new();
    let mut i: usize = 0;
    while i < v.len()
        invariant
            i <= v.len(),
            view_stmt_list(cloned@) == view_stmt_list(v@.subrange(0, i as int)),
        decreases v@.len() - i,
    {
        assert(decreases_to!(v@ => v@[i as int]));
        let c = clone_ast(&v[i]);
        proof {
            lemma_view_stmt_list_push(cloned@, c);
            lemma_view_stmt_list_push(v@.subrange(0, i as int), v@[i as int]);
            assert(v@.subrange(0, i as int).push(v@[i as int]) =~= v@.subrange(0, i as int + 1));
        }
        cloned.push(c);
        i = i + 1;
    }
    proof {
        assert(v@.subrange(0, v@.len() as int) =~= v@);
    }
    cloned
}

} // verus!
