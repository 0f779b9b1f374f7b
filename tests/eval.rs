use solar_consteval::diagnostics::DiagCtxt;
use solar_consteval::eval::{ConstantEvaluator, EvalError, EvalErrorKind};
use solar_consteval::hir::{
    BinOpKind, Expr, ExprKind, Hir, Lit, LitKind, Res, UnOpKind, VarMut, Variable, VariableId,
};
use solar_consteval::scalar::IntScalar;
use solar_consteval::span::Span;

fn sp(lo: u32) -> Span {
    Span::new(lo, lo + 1)
}

fn lit(lo: u32, kind: LitKind) -> Expr {
    Expr { span: sp(lo), kind: ExprKind::Lit(Lit { span: sp(lo), kind }) }
}

fn num(lo: u32, bytes: Vec<u8>) -> Expr {
    lit(lo, LitKind::Number(bytes))
}

fn bin(lo: u32, l: Expr, op: BinOpKind, r: Expr) -> Expr {
    Expr { span: sp(lo), kind: ExprKind::Binary(Box::new(l), op, Box::new(r)) }
}

fn var(lo: u32, index: usize) -> Expr {
    Expr { span: sp(lo), kind: ExprKind::Ident(vec![Res::Variable(VariableId { index })]) }
}

fn small(x: u64) -> [u64; 4] {
    [x, 0, 0, 0]
}

fn eval_in(hir: &Hir, e: &Expr, dcx: &mut DiagCtxt) -> Result<IntScalar, usize> {
    let mut ev = ConstantEvaluator::new(hir);
    ev.eval(e, dcx).map_err(|g| g.index())
}

fn eval_kind(e: &Expr) -> Result<[u64; 4], String> {
    let hir = Hir { variables: vec![] };
    let mut dcx = DiagCtxt::new();
    match eval_in(&hir, e, &mut dcx) {
        Ok(x) => Ok(x.limbs),
        Err(i) => Err(dcx.diagnostics()[i].note.clone()),
    }
}

fn scalar(x: u64) -> IntScalar {
    IntScalar::new(small(x))
}

const MAX: [u64; 4] = [u64::MAX; 4];

#[test]
fn folds_addition() {
    let e = bin(0, num(1, vec![2]), BinOpKind::Add, num(2, vec![3]));
    assert_eq!(eval_kind(&e), Ok(small(5)));
}

#[test]
fn power_overflow() {
    let e = bin(0, num(1, vec![2]), BinOpKind::Pow, num(2, vec![1, 0]));
    assert_eq!(eval_kind(&e), Err("arithmetic overflow".to_string()));
    let e = bin(0, num(1, vec![2]), BinOpKind::Pow, num(2, vec![255]));
    assert_eq!(eval_kind(&e), Ok([0, 0, 0, 1 << 63]));
}

#[test]
fn division_by_zero() {
    let e = bin(0, num(1, vec![1]), BinOpKind::Div, num(2, vec![0]));
    assert_eq!(eval_kind(&e), Err("division by zero".to_string()));
    let e = bin(0, num(1, vec![1]), BinOpKind::Rem, num(2, vec![0]));
    assert_eq!(eval_kind(&e), Err("division by zero".to_string()));
}

#[test]
fn ternary_is_lazy() {
    let hir = Hir {
        variables: vec![Variable {
            span: sp(50),
            mutability: None,
            initializer: Some(Box::new(num(51, vec![9]))),
        }],
    };
    let e = Expr {
        span: sp(0),
        kind: ExprKind::Ternary(
            Box::new(lit(1, LitKind::Bool(true))),
            Box::new(num(2, vec![1])),
            Box::new(var(3, 0)),
        ),
    };
    let mut dcx = DiagCtxt::new();
    assert_eq!(eval_in(&hir, &e, &mut dcx).map(|x| x.limbs), Ok(small(1)));
    assert_eq!(dcx.diagnostics().len(), 0);
    let e = Expr {
        span: sp(0),
        kind: ExprKind::Ternary(
            Box::new(lit(1, LitKind::Bool(false))),
            Box::new(num(2, vec![1])),
            Box::new(var(3, 0)),
        ),
    };
    assert_eq!(eval_in(&hir, &e, &mut dcx), Err(0));
    let d = &dcx.diagnostics()[0];
    assert_eq!(d.note, "only constant variables are allowed");
    assert_eq!(d.note_span, sp(3));
    assert_eq!(d.span, sp(0));
}

fn nested(levels: usize) -> Expr {
    let mut e = num(0, vec![1]);
    for i in 1..levels {
        e = bin(i as u32, e, BinOpKind::Add, num(1000, vec![0]));
    }
    e
}

#[test]
fn recursion_limit() {
    assert_eq!(eval_kind(&nested(64)), Ok(small(1)));
    assert_eq!(eval_kind(&nested(65)), Err("recursion limit reached".to_string()));
    let hir = Hir { variables: vec![] };
    let mut dcx = DiagCtxt::new();
    let mut ev = ConstantEvaluator::new(&hir);
    let e = nested(65);
    assert!(ev.eval(&e, &mut dcx).is_err());
    assert_eq!(dcx.diagnostics()[0].note_span, sp(0));
    assert_eq!(dcx.diagnostics()[0].span, sp(64));
    // The evaluator is usable again afterwards.
    assert_eq!(ev.eval(&nested(64), &mut dcx).map(|x| x.limbs), Ok(small(1)));
}

#[test]
fn constant_reference_is_idempotent() {
    let hir = Hir {
        variables: vec![
            Variable {
                span: sp(50),
                mutability: Some(VarMut::Constant),
                initializer: Some(Box::new(bin(51, num(52, vec![6]), BinOpKind::Mul, var(53, 1)))),
            },
            Variable {
                span: sp(60),
                mutability: Some(VarMut::Constant),
                initializer: Some(Box::new(num(61, vec![7]))),
            },
        ],
    };
    let e = var(0, 0);
    let mut dcx = DiagCtxt::new();
    let mut ev = ConstantEvaluator::new(&hir);
    let first = ev.eval(&e, &mut dcx);
    let second = ev.eval(&e, &mut dcx);
    assert_eq!(first.map(|x| x.limbs), Ok(small(42)));
    assert_eq!(first, second);
    assert_eq!(dcx.diagnostics().len(), 0);
}

#[test]
fn errors_reported_once() {
    let mut dcx = DiagCtxt::new();
    let guar = dcx.err("bad".to_string(), sp(9), sp(9), "note".to_string());
    let hir = Hir { variables: vec![] };
    let e = bin(0, num(1, vec![1]), BinOpKind::Add, Expr { span: sp(2), kind: ExprKind::Error(guar) });
    let mut ev = ConstantEvaluator::new(&hir);
    assert_eq!(ev.eval(&e, &mut dcx), Err(guar));
    assert_eq!(dcx.diagnostics().len(), 1);
    let e = lit(3, LitKind::Error(guar));
    assert_eq!(ev.eval(&e, &mut dcx), Err(guar));
    assert_eq!(dcx.diagnostics().len(), 1);
}

#[test]
fn failure_diagnostic_contents() {
    let hir = Hir { variables: vec![] };
    let mut dcx = DiagCtxt::new();
    let e = bin(0, num(1, vec![1]), BinOpKind::Sub, num(2, vec![2]));
    assert_eq!(eval_in(&hir, &e, &mut dcx), Err(0));
    let d = &dcx.diagnostics()[0];
    assert_eq!(d.message, "evaluation of constant value failed");
    assert_eq!(d.note, "arithmetic overflow");
    assert_eq!(d.span, sp(0));
    assert_eq!(d.note_span, sp(0));
}

#[test]
fn error_spans_of_nested_failures() {
    // The failing operator's own expression gives the note its location, also
    // inside parentheses and behind a constant.
    let hir = Hir {
        variables: vec![Variable {
            span: sp(50),
            mutability: Some(VarMut::Constant),
            initializer: Some(Box::new(bin(51, num(52, vec![1]), BinOpKind::Div, num(53, vec![0])))),
        }],
    };
    let inner = bin(2, var(3, 0), BinOpKind::Add, num(4, vec![1]));
    let e = Expr { span: sp(0), kind: ExprKind::Tuple(vec![inner]) };
    let mut dcx = DiagCtxt::new();
    assert_eq!(eval_in(&hir, &e, &mut dcx), Err(0));
    assert_eq!(dcx.diagnostics()[0].note_span, sp(51));
    assert_eq!(dcx.diagnostics()[0].span, sp(0));
    let e = Expr { span: sp(7), kind: ExprKind::Tuple(vec![Expr { span: sp(8), kind: ExprKind::New }]) };
    assert_eq!(eval_in(&hir, &e, &mut dcx), Err(1));
    assert_eq!(dcx.diagnostics()[1].note_span, sp(7));
}

#[test]
fn literal_kinds() {
    assert_eq!(eval_kind(&num(0, vec![1; 33])), Err("integer value is too big".to_string()));
    assert_eq!(eval_kind(&num(0, vec![0xff; 32])), Ok(MAX));
    assert_eq!(eval_kind(&num(0, vec![1, 2])), Ok(small(0x102)));
    assert_eq!(eval_kind(&lit(0, LitKind::Bool(true))), Ok(small(1)));
    assert_eq!(eval_kind(&lit(0, LitKind::Bool(false))), Ok(small(0)));
    let mut address = [0u8; 20];
    address[0] = 0x12;
    address[19] = 0x34;
    assert_eq!(eval_kind(&lit(0, LitKind::Address(address))), Ok([0x34, 0, 0x1200_0000, 0]));
    assert_eq!(
        eval_kind(&lit(0, LitKind::Str("a".to_string()))),
        Err("unsupported literal".to_string())
    );
    assert_eq!(
        eval_kind(&lit(0, LitKind::Rational(vec![1], vec![2]))),
        Err("unsupported literal".to_string())
    );
}

#[test]
fn unsupported_expressions() {
    let e = Expr { span: sp(0), kind: ExprKind::Array(vec![num(1, vec![1])]) };
    assert_eq!(eval_kind(&e), Err("unsupported expression".to_string()));
    let e = Expr { span: sp(0), kind: ExprKind::Ident(vec![Res::Other]) };
    assert_eq!(eval_kind(&e), Err("unsupported expression".to_string()));
    let e = Expr { span: sp(0), kind: ExprKind::Unary(UnOpKind::PreInc, Box::new(num(1, vec![1]))) };
    assert_eq!(eval_kind(&e), Err("unsupported unary operation".to_string()));
}

#[test]
fn parentheses_are_peeled() {
    let inner = bin(1, num(2, vec![4]), BinOpKind::Shl, num(3, vec![1]));
    let e = Expr { span: sp(0), kind: ExprKind::Tuple(vec![inner]) };
    assert_eq!(eval_kind(&e), Ok(small(8)));
    assert_eq!(e.peel_parens().span, sp(1));
    let pair = Expr { span: sp(0), kind: ExprKind::Tuple(vec![num(1, vec![1]), num(2, vec![2])]) };
    assert_eq!(eval_kind(&pair), Err("unsupported expression".to_string()));
}

#[test]
fn scalar_comparisons() {
    let (a, b) = (scalar(3), scalar(5));
    let one = Ok(scalar(1));
    let zero = Ok(scalar(0));
    assert_eq!(a.binop(&b, BinOpKind::Lt), one);
    assert_eq!(b.binop(&a, BinOpKind::Lt), zero);
    assert_eq!(a.binop(&a, BinOpKind::Le), one);
    assert_eq!(a.binop(&b, BinOpKind::Gt), zero);
    assert_eq!(b.binop(&a, BinOpKind::Ge), one);
    assert_eq!(a.binop(&a, BinOpKind::Eq), one);
    assert_eq!(a.binop(&b, BinOpKind::Ne), one);
    let big = IntScalar::new([0, 0, 0, 1]);
    assert_eq!(big.binop(&scalar(u64::MAX), BinOpKind::Gt), one);
}

#[test]
fn scalar_bitwise() {
    let (a, b) = (scalar(0b1100), scalar(0b1010));
    assert_eq!(a.binop(&b, BinOpKind::BitOr), Ok(scalar(0b1110)));
    assert_eq!(a.binop(&b, BinOpKind::Or), Ok(scalar(0b1110)));
    assert_eq!(a.binop(&b, BinOpKind::BitAnd), Ok(scalar(0b1000)));
    assert_eq!(a.binop(&b, BinOpKind::And), Ok(scalar(0b1000)));
    assert_eq!(a.binop(&b, BinOpKind::BitXor), Ok(scalar(0b0110)));
    assert_eq!(scalar(0).unop(UnOpKind::BitNot), Ok(IntScalar::new(MAX)));
    assert_eq!(scalar(1).unop(UnOpKind::Not), Ok(IntScalar::new([u64::MAX - 1, u64::MAX, u64::MAX, u64::MAX])));
}

#[test]
fn scalar_shifts_clamp() {
    assert_eq!(scalar(1).binop(&scalar(8), BinOpKind::Shl), Ok(scalar(256)));
    assert_eq!(scalar(1).binop(&scalar(64), BinOpKind::Shl), Ok(IntScalar::new([0, 1, 0, 0])));
    assert_eq!(scalar(1).binop(&scalar(256), BinOpKind::Shl), Ok(scalar(0)));
    assert_eq!(scalar(1).binop(&IntScalar::new([0, 0, 0, 1]), BinOpKind::Shl), Ok(scalar(0)));
    assert_eq!(scalar(256).binop(&scalar(4), BinOpKind::Shr), Ok(scalar(16)));
    assert_eq!(scalar(256).binop(&IntScalar::new(MAX), BinOpKind::Shr), Ok(scalar(0)));
    let neg = IntScalar::new(MAX);
    assert_eq!(neg.binop(&scalar(4), BinOpKind::Sar), Ok(IntScalar::new(MAX)));
    assert_eq!(neg.binop(&IntScalar::new(MAX), BinOpKind::Sar), Ok(IntScalar::new(MAX)));
    let top = IntScalar::new([0, 0, 0, 1 << 63]);
    assert_eq!(top.binop(&scalar(255), BinOpKind::Sar), Ok(IntScalar::new(MAX)));
    assert_eq!(scalar(256).binop(&scalar(4), BinOpKind::Sar), Ok(scalar(16)));
    assert_eq!(scalar(256).binop(&scalar(300), BinOpKind::Sar), Ok(scalar(0)));
}

#[test]
fn scalar_checked_arithmetic() {
    assert_eq!(scalar(5).binop(&scalar(3), BinOpKind::Sub), Ok(scalar(2)));
    assert_eq!(scalar(3).binop(&scalar(5), BinOpKind::Sub), Err(EvalErrorKind::ArithmeticOverflow));
    assert_eq!(scalar(6).binop(&scalar(7), BinOpKind::Mul), Ok(scalar(42)));
    let half = IntScalar::new([0, 0, 0, 1 << 63]);
    assert_eq!(half.binop(&scalar(2), BinOpKind::Mul), Err(EvalErrorKind::ArithmeticOverflow));
    assert_eq!(IntScalar::new(MAX).binop(&scalar(1), BinOpKind::Add), Err(EvalErrorKind::ArithmeticOverflow));
    assert_eq!(scalar(7).binop(&scalar(2), BinOpKind::Div), Ok(scalar(3)));
    assert_eq!(scalar(7).binop(&scalar(2), BinOpKind::Rem), Ok(scalar(1)));
    assert_eq!(scalar(3).binop(&scalar(4), BinOpKind::Pow), Ok(scalar(81)));
    assert_eq!(scalar(0).binop(&scalar(0), BinOpKind::Pow), Ok(scalar(1)));
    assert_eq!(scalar(7).binop(&scalar(0), BinOpKind::Div), Err(EvalErrorKind::DivisionByZero));
}

#[test]
fn scalar_negation_wraps() {
    assert_eq!(scalar(1).unop(UnOpKind::Neg), Ok(IntScalar::new(MAX)));
    assert_eq!(scalar(0).unop(UnOpKind::Neg), Ok(scalar(0)));
    let min = IntScalar::new([0, 0, 0, 1 << 63]);
    assert_eq!(min.unop(UnOpKind::Neg), Ok(min));
    assert_eq!(scalar(1).unop(UnOpKind::PostDec), Err(EvalErrorKind::UnsupportedUnaryOp));
}

#[test]
fn scalar_constructors() {
    assert_eq!(IntScalar::from_be_bytes(&[1, 0]), scalar(256));
    assert_eq!(IntScalar::from_be_bytes(&[]), scalar(0));
    assert_eq!(IntScalar::from_bool(true), scalar(1));
    assert!(scalar(2).to_bool());
    assert!(!scalar(0).to_bool());
    assert!(IntScalar::new([0, 0, 1, 0]).to_bool());
}

#[test]
fn error_spans() {
    let e = EvalErrorKind::IntTooBig.spanned(sp(4));
    assert_eq!(e, EvalError { span: sp(4), kind: EvalErrorKind::IntTooBig });
    let e = EvalError::from(EvalErrorKind::IntTooBig);
    assert!(e.span.is_dummy());
    assert_eq!(EvalErrorKind::NonConstantVar.msg(), "only constant variables are allowed");
}
