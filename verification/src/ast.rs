use vstd::prelude::*;
use crate::scalar::{F32Bits, F64Bits};

verus! {

broadcast use {vstd::std_specs::vec::group_vec_axioms, vstd::seq::group_seq_axioms};

/// The unary operators of the language.
#[derive(Copy, Clone, PartialEq, Eq, Structural, Debug)]
pub enum UnaryOp {
    Inc,
    Dec,
    Add,
    Minus,
    Not,
    Complement,
}

/// The binary operators of the language.
#[derive(Copy, Clone, PartialEq, Eq, Structural, Debug)]
pub enum BinaryOp {
    Or,
    Xor,
    And,
    BitOr,
    BitXor,
    BitAnd,
    Equal,
    NonEqual,
    LT,
    GT,
    LTE,
    GTE,
    LShift,
    RShift,
    Add,
    Sub,
    Mult,
    Div,
    Mod,
}

/// The assignment operators of the language.
#[derive(Copy, Clone, PartialEq, Eq, Structural, Debug)]
pub enum AssignmentOp {
    Equal,
    Mult,
    Div,
    Mod,
    Add,
    Sub,
    LShift,
    RShift,
    And,
    Xor,
    Or,
}

/// The callee of a function call: a plain identifier, or an arbitrary
/// expression.
#[derive(Debug)]
pub enum FunIdentifier {
    Identifier(String),
    Expr(Box<Expr>),
}

/// One dimension of an array specifier in an indexing expression.
#[derive(Debug)]
pub enum ArraySpecDim {
    Unsized,
    Sized(Box<Expr>),
}

/// An expression of the language. Floating point literals carry
/// their IEEE-754 bit patterns.
#[derive(Debug)]
pub enum Expr {
    Variable(String),
    IntConst(i32),
    UIntConst(u32),
    BoolConst(bool),
    FloatConst(F32Bits),
    DoubleConst(F64Bits),
    Unary(UnaryOp, Box<Expr>),
    Binary(BinaryOp, Box<Expr>, Box<Expr>),
    Ternary(Box<Expr>, Box<Expr>, Box<Expr>),
    Assignment(Box<Expr>, AssignmentOp, Box<Expr>),
    Bracket(Box<Expr>, Vec<ArraySpecDim>),
    FunCall(FunIdentifier, Vec<Expr>),
    Dot(Box<Expr>, String),
    PostInc(Box<Expr>),
    PostDec(Box<Expr>),
    Comma(Box<Expr>, Box<Expr>),
}

pub ghost enum FunIdentifierView {
    Identifier(Seq<char>),
    Expr(Box<ExprView>),
}

pub ghost enum ArraySpecDimView {
    Unsized,
    Sized(Box<ExprView>),
}

/// The mathematical content of an expression, with identifiers as
/// character sequences.
pub ghost enum ExprView {
    Variable(Seq<char>),
    IntConst(i32),
    UIntConst(u32),
    BoolConst(bool),
    FloatConst(F32Bits),
    DoubleConst(F64Bits),
    Unary(UnaryOp, Box<ExprView>),
    Binary(BinaryOp, Box<ExprView>, Box<ExprView>),
    Ternary(Box<ExprView>, Box<ExprView>, Box<ExprView>),
    Assignment(Box<ExprView>, AssignmentOp, Box<ExprView>),
    Bracket(Box<ExprView>, Seq<ArraySpecDimView>),
    FunCall(FunIdentifierView, Seq<ExprView>),
    Dot(Box<ExprView>, Seq<char>),
    PostInc(Box<ExprView>),
    PostDec(Box<ExprView>),
    Comma(Box<ExprView>, Box<ExprView>),
}

pub open spec fn spec_view_expr(e: Expr) -> ExprView
    decreases e,
{
    match e {
        Expr::Variable(s) => ExprView::Variable(s@),
        Expr::IntConst(v) => ExprView::IntConst(v),
        Expr::UIntConst(v) => ExprView::UIntConst(v),
        Expr::BoolConst(v) => ExprView::BoolConst(v),
        Expr::FloatConst(v) => ExprView::FloatConst(v),
        Expr::DoubleConst(v) => ExprView::DoubleConst(v),
        Expr::Unary(op, a) => ExprView::Unary(op, Box::new(spec_view_expr(*a))),
        Expr::Binary(op, a, b) => ExprView::Binary(
            op,
            Box::new(spec_view_expr(*a)),
            Box::new(spec_view_expr(*b)),
        ),
        Expr::Ternary(a, b, c) => ExprView::Ternary(
            Box::new(spec_view_expr(*a)),
            Box::new(spec_view_expr(*b)),
            Box::new(spec_view_expr(*c)),
        ),
        Expr::Assignment(a, op, b) => ExprView::Assignment(
            Box::new(spec_view_expr(*a)),
            op,
            Box::new(spec_view_expr(*b)),
        ),
        Expr::Bracket(a, dims) => ExprView::Bracket(
            Box::new(spec_view_expr(*a)),
            spec_view_dim_list(dims@),
        ),
        Expr::FunCall(f, args) => ExprView::FunCall(
            spec_view_fun_ident(f),
            spec_view_expr_list(args@),
        ),
        Expr::Dot(a, name) => ExprView::Dot(Box::new(spec_view_expr(*a)), name@),
        Expr::PostInc(a) => ExprView::PostInc(Box::new(spec_view_expr(*a))),
        Expr::PostDec(a) => ExprView::PostDec(Box::new(spec_view_expr(*a))),
        Expr::Comma(a, b) => ExprView::Comma(
            Box::new(spec_view_expr(*a)),
            Box::new(spec_view_expr(*b)),
        ),
    }
}

/// The views of a list of argument expressions, in order.
pub open spec fn spec_view_expr_list(args: Seq<Expr>) -> Seq<ExprView>
    decreases args,
{
    if args.len() == 0 {
        Seq::empty()
    } else {
        seq![spec_view_expr(args.first())] + spec_view_expr_list(args.drop_first())
    }
}

pub open spec fn spec_view_dim_list(dims: Seq<ArraySpecDim>) -> Seq<ArraySpecDimView>
    decreases dims,
{
    if dims.len() == 0 {
        Seq::empty()
    } else {
        seq![spec_view_dim(dims.first())] + spec_view_dim_list(dims.drop_first())
    }
}

/// The view list is the pointwise view of the arguments.
pub proof fn lemma_view_expr_list(args: Seq<Expr>)
    ensures
        spec_view_expr_list(args).len() == args.len(),
        forall|i: int|
            0 <= i < args.len() ==> spec_view_expr_list(args)[i] == spec_view_expr(args[i]),
    decreases args,
{
    if args.len() > 0 {
        lemma_view_expr_list(args.drop_first());
    }
}

pub proof fn lemma_view_dim_list(dims: Seq<ArraySpecDim>)
    ensures
        spec_view_dim_list(dims).len() == dims.len(),
        forall|i: int|
            0 <= i < dims.len() ==> spec_view_dim_list(dims)[i] == spec_view_dim(dims[i]),
    decreases dims,
{
    if dims.len() > 0 {
        lemma_view_dim_list(dims.drop_first());
    }
}

pub open spec fn spec_view_fun_ident(f: FunIdentifier) -> FunIdentifierView
    decreases f,
{
    match f {
        FunIdentifier::Identifier(s) => FunIdentifierView::Identifier(s@),
        FunIdentifier::Expr(e) => FunIdentifierView::Expr(Box::new(spec_view_expr(*e))),
    }
}

pub open spec fn spec_view_dim(d: ArraySpecDim) -> ArraySpecDimView
    decreases d,
{
    match d {
        ArraySpecDim::Unsized => ArraySpecDimView::Unsized,
        ArraySpecDim::Sized(e) => ArraySpecDimView::Sized(Box::new(spec_view_expr(*e))),
    }
}

impl View for Expr {
    type V = ExprView;

    open spec fn view(&self) -> ExprView {
        spec_view_expr(*self)
    }
}

/// A deep copy of an expression; the copy has the same view.
pub fn clone_expr(e: &Expr) -> (r: Expr)
    ensures
        r@ == e@,
    decreases *e,
{
    match e {
        Expr::Variable(s) => Expr::Variable(s.clone()),
        Expr::IntConst(v) => Expr::IntConst(*v),
        Expr::UIntConst(v) => Expr::UIntConst(*v),
        Expr::BoolConst(v) => Expr::BoolConst(*v),
        Expr::FloatConst(v) => Expr::FloatConst(*v),
        Expr::DoubleConst(v) => Expr::DoubleConst(*v),
        Expr::Unary(op, a) => Expr::Unary(*op, Box::new(clone_expr(a))),
        Expr::Binary(op, a, b) => Expr::Binary(
            *op,
            Box::new(clone_expr(a)),
            Box::new(clone_expr(b)),
        ),
        Expr::Ternary(a, b, c) => Expr::Ternary(
            Box::new(clone_expr(a)),
            Box::new(clone_expr(b)),
            Box::new(clone_expr(c)),
        ),
        Expr::Assignment(a, op, b) => Expr::Assignment(
            Box::new(clone_expr(a)),
            *op,
            Box::new(clone_expr(b)),
        ),
        Expr::Bracket(a, dims) => {
            let ca = Box::new(clone_expr(a));
            let cdims = clone_dim_list(dims);
            proof {
                lemma_view_dim_list_pointwise(dims@, cdims@);
            }
            Expr::Bracket(ca, cdims)
        },
        Expr::FunCall(f, args) => {
            let cf = clone_fun_ident(f);
            let cargs = clone_expr_list(args);
            proof {
                lemma_view_expr_list_pointwise(args@, cargs@);
            }
            Expr::FunCall(cf, cargs)
        },
        Expr::Dot(a, name) => Expr::Dot(Box::new(clone_expr(a)), name.clone()),
        Expr::PostInc(a) => Expr::PostInc(Box::new(clone_expr(a))),
        Expr::PostDec(a) => Expr::PostDec(Box::new(clone_expr(a))),
        Expr::Comma(a, b) => Expr::Comma(Box::new(clone_expr(a)), Box::new(clone_expr(b))),
    }
}

/// Two argument lists whose members have equal views have equal view
/// lists.
pub proof fn lemma_view_expr_list_pointwise(a: Seq<Expr>, b: Seq<Expr>)
    requires
        a.len() == b.len(),
        forall|i: int| 0 <= i < a.len() ==> spec_view_expr(a[i]) == spec_view_expr(b[i]),
    ensures
        spec_view_expr_list(a) == spec_view_expr_list(b),
{
    lemma_view_expr_list(a);
    lemma_view_expr_list(b);
    assert(spec_view_expr_list(a) =~= spec_view_expr_list(b));
}

pub proof fn lemma_view_dim_list_pointwise(a: Seq<ArraySpecDim>, b: Seq<ArraySpecDim>)
    requires
        a.len() == b.len(),
        forall|i: int| 0 <= i < a.len() ==> spec_view_dim(a[i]) == spec_view_dim(b[i]),
    ensures
        spec_view_dim_list(a) == spec_view_dim_list(b),
{
    lemma_view_dim_list(a);
    lemma_view_dim_list(b);
    assert(spec_view_dim_list(a) =~= spec_view_dim_list(b));
}

pub fn clone_fun_ident(f: &FunIdentifier) -> (r: FunIdentifier)
    ensures
        r@ == f@,
    decreases *f,
{
    match f {
        FunIdentifier::Identifier(s) => FunIdentifier::Identifier(s.clone()),
        FunIdentifier::Expr(e) => FunIdentifier::Expr(Box::new(clone_expr(e))),
    }
}

fn clone_dim(d: &ArraySpecDim) -> (r: ArraySpecDim)
    ensures
        r@ == d@,
    decreases *d,
{
    match d {
        ArraySpecDim::Unsized => ArraySpecDim::Unsized,
        ArraySpecDim::Sized(e) => ArraySpecDim::Sized(Box::new(clone_expr(e))),
    }
}

pub fn clone_expr_list(args: &Vec<Expr>) -> (r: Vec<Expr>)
    ensures
        r@.len() == args@.len(),
        forall|i: int| 0 <= i < args@.len() ==> spec_view_expr(r@[i]) == spec_view_expr(args@[i]),
    decreases args@,
{
    let mut out: Vec<Expr> = Vec::new();
    let mut i: usize = 0;
    while i < args.len()
        invariant
            0 <= i <= args@.len(),
            out@.len() == i as int,
            forall|j: int|
                0 <= j < i as int ==> spec_view_expr(out@[j]) == spec_view_expr(args@[j]),
        decreases args@.len() - i,
    {
        out.push(clone_expr(&args[i]));
        i += 1;
    }
    out
}

fn clone_dim_list(dims: &Vec<ArraySpecDim>) -> (r: Vec<ArraySpecDim>)
    ensures
        r@.len() == dims@.len(),
        forall|i: int| 0 <= i < dims@.len() ==> spec_view_dim(r@[i]) == spec_view_dim(dims@[i]),
    decreases dims@,
{
    let mut out: Vec<ArraySpecDim> = Vec::new();
    let mut i: usize = 0;
    while i < dims.len()
        invariant
            0 <= i <= dims@.len(),
            out@.len() == i as int,
            forall|j: int| 0 <= j < i as int ==> spec_view_dim(out@[j]) == spec_view_dim(dims@[j]),
        decreases dims@.len() - i,
    {
        out.push(clone_dim(&dims[i]));
        i += 1;
    }
    out
}

pub open spec fn spec_expr_tag(e: Expr) -> int {
    match e {
        Expr::Variable(..) => 0,
        Expr::IntConst(..) => 1,
        Expr::UIntConst(..) => 2,
        Expr::BoolConst(..) => 3,
        Expr::FloatConst(..) => 4,
        Expr::DoubleConst(..) => 5,
        Expr::Unary(..) => 6,
        Expr::Binary(..) => 7,
        Expr::Ternary(..) => 8,
        Expr::Assignment(..) => 9,
        Expr::Bracket(..) => 10,
        Expr::FunCall(..) => 11,
        Expr::Dot(..) => 12,
        Expr::PostInc(..) => 13,
        Expr::PostDec(..) => 14,
        Expr::Comma(..) => 15,
    }
}

pub open spec fn spec_expr_view_tag(v: ExprView) -> int {
    match v {
        ExprView::Variable(..) => 0,
        ExprView::IntConst(..) => 1,
        ExprView::UIntConst(..) => 2,
        ExprView::BoolConst(..) => 3,
        ExprView::FloatConst(..) => 4,
        ExprView::DoubleConst(..) => 5,
        ExprView::Unary(..) => 6,
        ExprView::Binary(..) => 7,
        ExprView::Ternary(..) => 8,
        ExprView::Assignment(..) => 9,
        ExprView::Bracket(..) => 10,
        ExprView::FunCall(..) => 11,
        ExprView::Dot(..) => 12,
        ExprView::PostInc(..) => 13,
        ExprView::PostDec(..) => 14,
        ExprView::Comma(..) => 15,
    }
}

/// The view keeps the node kind.
pub proof fn lemma_view_keeps_tag(e: Expr)
    ensures
        spec_expr_view_tag(spec_view_expr(e)) == spec_expr_tag(e),
{
}

/// Structural equality of two expressions: exactly when their views
/// agree. Floating point literals compare by bit pattern.
pub fn expr_eq(a: &Expr, b: &Expr) -> (r: bool)
    ensures
        r == (a@ == b@),
    decreases *a,
{
    proof {
        lemma_view_keeps_tag(*a);
        lemma_view_keeps_tag(*b);
    }
    match (a, b) {
        (Expr::Variable(x), Expr::Variable(y)) => *x == *y,
        (Expr::IntConst(x), Expr::IntConst(y)) => *x == *y,
        (Expr::UIntConst(x), Expr::UIntConst(y)) => *x == *y,
        (Expr::BoolConst(x), Expr::BoolConst(y)) => *x == *y,
        (Expr::FloatConst(x), Expr::FloatConst(y)) => *x == *y,
        (Expr::DoubleConst(x), Expr::DoubleConst(y)) => *x == *y,
        (Expr::Unary(op1, a1), Expr::Unary(op2, a2)) => *op1 == *op2 && expr_eq(a1, a2),
        (Expr::Binary(op1, a1, b1), Expr::Binary(op2, a2, b2)) => *op1 == *op2 && expr_eq(a1, a2)
            && expr_eq(b1, b2),
        (Expr::Ternary(a1, b1, c1), Expr::Ternary(a2, b2, c2)) => expr_eq(a1, a2) && expr_eq(
            b1,
            b2,
        ) && expr_eq(c1, c2),
        (Expr::Assignment(a1, op1, b1), Expr::Assignment(a2, op2, b2)) => *op1 == *op2 && expr_eq(
            a1,
            a2,
        ) && expr_eq(b1, b2),
        (Expr::Bracket(a1, d1), Expr::Bracket(a2, d2)) => {
            let head = expr_eq(a1, a2);
            let dims = dim_list_eq(d1, d2);
            head && dims
        },
        (Expr::FunCall(f1, args1), Expr::FunCall(f2, args2)) => {
            let idents = fun_ident_eq(f1, f2);
            let args = expr_list_eq(args1, args2);
            idents && args
        },
        (Expr::Dot(a1, n1), Expr::Dot(a2, n2)) => expr_eq(a1, a2) && *n1 == *n2,
        (Expr::PostInc(a1), Expr::PostInc(a2)) => expr_eq(a1, a2),
        (Expr::PostDec(a1), Expr::PostDec(a2)) => expr_eq(a1, a2),
        (Expr::Comma(a1, b1), Expr::Comma(a2, b2)) => expr_eq(a1, a2) && expr_eq(b1, b2),
        _ => false,
    }
}

pub fn fun_ident_eq(a: &FunIdentifier, b: &FunIdentifier) -> (r: bool)
    ensures
        r == (a@ == b@),
    decreases *a,
{
    match a {
        FunIdentifier::Identifier(x) => match b {
            FunIdentifier::Identifier(y) => *x == *y,
            _ => false,
        },
        FunIdentifier::Expr(x) => match b {
            FunIdentifier::Expr(y) => expr_eq(x, y),
            _ => false,
        },
    }
}

fn dim_eq(a: &ArraySpecDim, b: &ArraySpecDim) -> (r: bool)
    ensures
        r == (a@ == b@),
    decreases *a,
{
    match (a, b) {
        (ArraySpecDim::Unsized, ArraySpecDim::Unsized) => true,
        (ArraySpecDim::Sized(x), ArraySpecDim::Sized(y)) => expr_eq(x, y),
        _ => false,
    }
}

pub fn expr_list_eq(a: &Vec<Expr>, b: &Vec<Expr>) -> (r: bool)
    ensures
        r == (spec_view_expr_list(a@) == spec_view_expr_list(b@)),
    decreases a@,
{
    proof {
        lemma_view_expr_list(a@);
        lemma_view_expr_list(b@);
    }
    if a.len() != b.len() {
        return false;
    }
    let mut i: usize = 0;
    while i < a.len()
        invariant
            a@.len() == b@.len(),
            0 <= i <= a@.len(),
            forall|j: int|
                0 <= j < i as int ==> spec_view_expr(a@[j]) == spec_view_expr(b@[j]),
        decreases a@.len() - i,
    {
        if !expr_eq(&a[i], &b[i]) {
            proof {
                lemma_view_expr_list(a@);
                lemma_view_expr_list(b@);
                assert(spec_view_expr_list(a@)[i as int] != spec_view_expr_list(b@)[i as int]);
            }
            return false;
        }
        i += 1;
    }
    proof {
        lemma_view_expr_list_pointwise(a@, b@);
    }
    true
}

fn dim_list_eq(a: &Vec<ArraySpecDim>, b: &Vec<ArraySpecDim>) -> (r: bool)
    ensures
        r == (spec_view_dim_list(a@) == spec_view_dim_list(b@)),
    decreases a@,
{
    proof {
        lemma_view_dim_list(a@);
        lemma_view_dim_list(b@);
    }
    if a.len() != b.len() {
        return false;
    }
    let mut i: usize = 0;
    while i < a.len()
        invariant
            a@.len() == b@.len(),
            0 <= i <= a@.len(),
            forall|j: int| 0 <= j < i as int ==> spec_view_dim(a@[j]) == spec_view_dim(b@[j]),
        decreases a@.len() - i,
    {
        if !dim_eq(&a[i], &b[i]) {
            proof {
                lemma_view_dim_list(a@);
                lemma_view_dim_list(b@);
                assert(spec_view_dim_list(a@)[i as int] != spec_view_dim_list(b@)[i as int]);
            }
            return false;
        }
        i += 1;
    }
    proof {
        lemma_view_dim_list_pointwise(a@, b@);
    }
    true
}

impl View for FunIdentifier {
    type V = FunIdentifierView;

    open spec fn view(&self) -> FunIdentifierView {
        spec_view_fun_ident(*self)
    }
}

impl View for ArraySpecDim {
    type V = ArraySpecDimView;

    open spec fn view(&self) -> ArraySpecDimView {
        spec_view_dim(*self)
    }
}

} // verus!
