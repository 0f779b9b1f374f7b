use vstd::prelude::*;

use crate::diagnostics::{DiagCtxt, Diagnostic, ErrorGuaranteed};
use crate::hir::{peeled, Expr, ExprKind, Hir, Lit, LitKind, Res, VarMut};
use crate::scalar::{lemma_limbs_of_value, be_value, binop_value, bool_value, result_value, unop_value, IntScalar};
use crate::span::Span;

verus! {

/// Why a constant could not be evaluated.
#[derive(Clone, Copy, Debug, PartialEq, Eq, Structural)]
pub enum EvalErrorKind {
    /// The expression is nested deeper than the evaluator allows.
    RecursionLimitReached,
    /// Addition, subtraction, multiplication or exponentiation left the 256-bit range.
    ArithmeticOverflow,
    /// A number literal needs more than 256 bits.
    IntTooBig,
    /// Division or remainder by zero.
    DivisionByZero,
    /// A literal of a kind that is not evaluated (string, rational).
    UnsupportedLiteral,
    /// An increment or decrement.
    UnsupportedUnaryOp,
    /// An expression of a kind that is not evaluated.
    UnsupportedExpr,
    /// A name that refers to a variable that is not constant.
    NonConstantVar,
    /// The failure was reported already.
    AlreadyEmitted(ErrorGuaranteed),
}

/// A failed evaluation: why, and where.
#[derive(Clone, Copy, Debug, PartialEq, Eq, Structural)]
pub struct EvalError {
    pub span: Span,
    pub kind: EvalErrorKind,
}

impl EvalErrorKind {
    /// Attaches a location to the error.
    pub fn spanned(self, span: Span) -> (r: EvalError)
        ensures
            r == (EvalError { kind: self, span }),
    {
        EvalError { kind: self, span }
    }
}

impl From<EvalErrorKind> for EvalError {
    /// An error at no known location yet.
    fn from(value: EvalErrorKind) -> (r: EvalError) {
        EvalError { kind: value, span: Span { lo: 0, hi: 0 } }
    }
}

impl vstd::std_specs::convert::FromSpecImpl<EvalErrorKind> for EvalError {
    open spec fn obeys_from_spec() -> bool {
        true
    }

    open spec fn from_spec(value: EvalErrorKind) -> EvalError {
        EvalError { kind: value, span: Span { lo: 0, hi: 0 } }
    }
}

/// How deep expressions may nest, counting each variable's initializer as one
/// level below the name that refers to it.
pub const RECURSION_LIMIT: usize = 64;

/// The message of an error kind.
pub open spec fn kind_msg(k: EvalErrorKind) -> Seq<char> {
    match k {
        EvalErrorKind::RecursionLimitReached => "recursion limit reached"@,
        EvalErrorKind::ArithmeticOverflow => "arithmetic overflow"@,
        EvalErrorKind::IntTooBig => "integer value is too big"@,
        EvalErrorKind::DivisionByZero => "division by zero"@,
        EvalErrorKind::UnsupportedLiteral => "unsupported literal"@,
        EvalErrorKind::UnsupportedUnaryOp => "unsupported unary operation"@,
        EvalErrorKind::UnsupportedExpr => "unsupported expression"@,
        EvalErrorKind::NonConstantVar => "only constant variables are allowed"@,
        EvalErrorKind::AlreadyEmitted(_) => "error already emitted"@,
    }
}

impl EvalErrorKind {
    /// The message that describes the error.
    pub fn msg(&self) -> (r: &'static str)
        ensures
            r@ == kind_msg(*self),
    {
        match self {
            EvalErrorKind::RecursionLimitReached => "recursion limit reached",
            EvalErrorKind::ArithmeticOverflow => "arithmetic overflow",
            EvalErrorKind::IntTooBig => "integer value is too big",
            EvalErrorKind::DivisionByZero => "division by zero",
            EvalErrorKind::UnsupportedLiteral => "unsupported literal",
            EvalErrorKind::UnsupportedUnaryOp => "unsupported unary operation",
            EvalErrorKind::UnsupportedExpr => "unsupported expression",
            EvalErrorKind::NonConstantVar => "only constant variables are allowed",
            EvalErrorKind::AlreadyEmitted(_) => "error already emitted",
        }
    }
}

/// An error at no known location yet.
pub open spec fn unspanned(k: EvalErrorKind) -> EvalError {
    EvalError { kind: k, span: Span { lo: 0, hi: 0 } }
}

/// Gives an error that has no location yet the location `span`.
pub open spec fn backfill(r: Result<nat, EvalError>, span: Span) -> Result<nat, EvalError> {
    match r {
        Err(e) => if e.span.spec_is_dummy() {
            Err(EvalError { kind: e.kind, span })
        } else {
            Err(e)
        },
        Ok(v) => Ok(v),
    }
}

/// Lifts a result of the scalar operations to an error with no location yet.
pub open spec fn lift(r: Result<nat, EvalErrorKind>) -> Result<nat, EvalError> {
    match r {
        Ok(v) => Ok(v),
        Err(k) => Err(unspanned(k)),
    }
}

/// The value of a literal.
pub open spec fn lit_value(lit: LitKind) -> Result<nat, EvalError> {
    match lit {
        LitKind::Number(bytes) => if bytes@.len() > 32 {
            Err(unspanned(EvalErrorKind::IntTooBig))
        } else {
            Ok(be_value(bytes@))
        },
        LitKind::Address(bytes) => Ok(be_value(bytes@)),
        LitKind::Bool(b) => Ok(bool_value(b)),
        LitKind::Error(guar) => Err(unspanned(EvalErrorKind::AlreadyEmitted(guar))),
        _ => Err(unspanned(EvalErrorKind::UnsupportedLiteral)),
    }
}

/// The big-endian bytes `b` have no leading zero byte, but for a lone zero.
pub open spec fn minimal_be(b: Seq<u8>) -> bool {
    b.len() > 1 ==> b[0] != 0
}

/// In the evaluated parts of `e`, every name refers to one of the first `n`
/// variables, and every number literal is written in minimal big-endian bytes.
pub open spec fn expr_wf(e: Expr, n: nat) -> bool
    decreases e,
{
    match e.kind {
        ExprKind::Binary(l, _, r) => expr_wf(*l, n) && expr_wf(*r, n),
        ExprKind::Ident(res) => forall|i: int|
            0 <= i < res@.len() ==> (#[trigger] res@[i] matches Res::Variable(id) ==> id.index < n),
        ExprKind::Ternary(c, t, f) => expr_wf(*c, n) && expr_wf(*t, n) && expr_wf(*f, n),
        ExprKind::Tuple(v) => v@.len() == 1 ==> expr_wf(v@[0], n),
        ExprKind::Unary(_, v) => expr_wf(*v, n),
        ExprKind::Lit(lit) => lit.kind matches LitKind::Number(bytes) ==> minimal_be(bytes@),
        _ => true,
    }
}

impl Hir {
    /// Every constant variable has an initializer, and every initializer is
    /// well formed (`expr_wf`) against the declared variables.
    pub open spec fn wf(self) -> bool {
        forall|i: int|
            0 <= i < self.variables@.len() ==> {
                let v = #[trigger] self.variables@[i];
                &&& v.mutability == Some(VarMut::Constant) ==> v.initializer is Some
                &&& v.initializer matches Some(init) ==> expr_wf(*init, self.variables@.len())
            }
    }
}

/// The value of `e`, evaluated at nesting depth `depth + 1`.
pub open spec fn eval_value(hir: Hir, e: Expr, depth: nat) -> Result<nat, EvalError>
    decreases RECURSION_LIMIT - depth, 1int,
{
    if depth + 1 > RECURSION_LIMIT {
        Err(EvalError { kind: EvalErrorKind::RecursionLimitReached, span: e.span })
    } else {
        backfill(inner_value(hir, e, depth), e.span)
    }
}

/// The result of `e` at nesting depth `depth + 1`, before an error without a
/// location is given `e`'s location: parentheses peeled, then the kind of
/// expression decides.
pub open spec fn inner_value(hir: Hir, e: Expr, depth: nat) -> Result<nat, EvalError>
    decreases RECURSION_LIMIT - depth, 0int,
{
    let d = depth + 1;
    if d > RECURSION_LIMIT {
        Err(unspanned(EvalErrorKind::RecursionLimitReached))
    } else {
        match peeled(e).kind {
            ExprKind::Binary(l, op, r) => match eval_value(hir, *l, d) {
                Err(err) => Err(err),
                Ok(a) => match eval_value(hir, *r, d) {
                    Err(err) => Err(err),
                    Ok(b) => lift(binop_value(a, b, op)),
                },
            },
            ExprKind::Ident(res) => if res@.len() == 1 && res@[0] is Variable {
                let v = hir.variables@[res@[0]->Variable_0.index as int];
                if v.mutability != Some(VarMut::Constant) {
                    Err(unspanned(EvalErrorKind::NonConstantVar))
                } else {
                    eval_value(hir, *v.initializer.unwrap(), d)
                }
            } else {
                Err(unspanned(EvalErrorKind::UnsupportedExpr))
            },
            ExprKind::Lit(lit) => lit_value(lit.kind),
            ExprKind::Ternary(c, t, f) => match eval_value(hir, *c, d) {
                Err(err) => Err(err),
                Ok(cv) => if cv != 0 {
                    eval_value(hir, *t, d)
                } else {
                    eval_value(hir, *f, d)
                },
            },
            ExprKind::Unary(op, v) => match eval_value(hir, *v, d) {
                Err(err) => Err(err),
                Ok(x) => lift(unop_value(x, op)),
            },
            ExprKind::Error(guar) => Err(unspanned(EvalErrorKind::AlreadyEmitted(guar))),
            _ => Err(unspanned(EvalErrorKind::UnsupportedExpr)),
        }
    }
}

/// Whether `d` is the report of the failure `err` of the evaluation of `expr`.
pub open spec fn is_failure_report(d: Diagnostic, expr: Expr, err: EvalError) -> bool {
    &&& d.message@ == "evaluation of constant value failed"@
    &&& d.span == expr.span
    &&& d.note_span == err.span
    &&& d.note@ == kind_msg(err.kind)
}

/// What a top-level evaluation with the outcome `value` returns as `r`, and how it
/// takes the reported errors from `before` to `after`: a value comes back with
/// nothing reported; a failure that was reported already comes back as that
/// report; any other failure is reported once, at `expr`, with a note at the
/// failure's own location.
pub open spec fn eval_outcome(
    value: Result<nat, EvalError>,
    r: Result<IntScalar, ErrorGuaranteed>,
    expr: Expr,
    before: Seq<Diagnostic>,
    after: Seq<Diagnostic>,
) -> bool {
    match value {
        Ok(v) => r matches Ok(x) && x.value() == v && after == before,
        Err(err) => match err.kind {
            EvalErrorKind::AlreadyEmitted(guar) => r == Err::<IntScalar, ErrorGuaranteed>(guar)
                && after == before,
            _ => {
                &&& r matches Err(guar) && guar.spec_index() == before.len()
                &&& after.len() == before.len() + 1
                &&& after.take(before.len() as int) == before
                &&& is_failure_report(after.last(), expr, err)
            },
        },
    }
}

/// Evaluates simple constants.
pub struct ConstantEvaluator<'hir> {
    pub hir: &'hir Hir,
    depth: usize,
}

impl<'hir> ConstantEvaluator<'hir> {
    /// The evaluator is between two evaluations.
    pub closed spec fn wf(&self) -> bool {
        self.depth == 0
    }

    /// The declarations that names refer to.
    pub closed spec fn spec_hir(&self) -> Hir {
        *self.hir
    }

    /// Creates an evaluator for expressions that refer to the declarations of `hir`.
    pub fn new(hir: &'hir Hir) -> (r: Self)
        ensures
            r.spec_hir() == *hir,
            r.wf(),
    {
        ConstantEvaluator { hir, depth: 0 }
    }

    /// Evaluates `expr`. A failure is reported to `dcx`, unless it was reported
    /// already; either way the proof of the report comes back.
    pub fn eval(&mut self, expr: &Expr, dcx: &mut DiagCtxt) -> (r: Result<IntScalar, ErrorGuaranteed>)
        requires
            old(self).wf(),
            old(self).spec_hir().wf(),
            expr_wf(*expr, old(self).spec_hir().variables@.len()),
        ensures
            final(self).wf(),
            final(self).spec_hir() == old(self).spec_hir(),
            eval_outcome(
                eval_value(old(self).spec_hir(), *expr, 0),
                r,
                *expr,
                old(dcx).spec_diagnostics(),
                final(dcx).spec_diagnostics(),
            ),
    {
        match self.eval_expr(expr) {
            Ok(v) => Ok(v),
            Err(err) => match err.kind {
                EvalErrorKind::AlreadyEmitted(guar) => Err(guar),
                _ => {
                    let ghost before = dcx.spec_diagnostics();
                    let message = "evaluation of constant value failed".to_owned();
                    let note = err.kind.msg().to_owned();
                    let guar = dcx.err(message, expr.span, err.span, note);
                    assert(dcx.spec_diagnostics().take(before.len() as int) =~= before);
                    Err(guar)
                },
            },
        }
    }

    fn eval_expr(&mut self, expr: &Expr) -> (r: Result<IntScalar, EvalError>)
        requires
            old(self).depth <= RECURSION_LIMIT,
            old(self).hir.wf(),
            expr_wf(*expr, old(self).hir.variables@.len()),
        ensures
            final(self).depth == old(self).depth,
            final(self).hir == old(self).hir,
            result_value(r) == eval_value(*old(self).hir, *expr, old(self).depth as nat),
        decreases RECURSION_LIMIT - old(self).depth, 1int,
    {
        self.depth = self.depth + 1;
        if self.depth > RECURSION_LIMIT {
            self.depth = self.depth - 1;
            return Err(EvalErrorKind::RecursionLimitReached.spanned(expr.span));
        }
        let mut res = self.eval_expr_inner(expr);
        if let Err(e) = res {
            if e.span.is_dummy() {
                res = Err(EvalError { kind: e.kind, span: expr.span });
            }
        }
        self.depth = self.depth - 1;
        res
    }

    fn eval_expr_inner(&mut self, expr: &Expr) -> (r: Result<IntScalar, EvalError>)
        requires
            1 <= old(self).depth <= RECURSION_LIMIT,
            old(self).hir.wf(),
            expr_wf(*expr, old(self).hir.variables@.len()),
        ensures
            final(self).depth == old(self).depth,
            final(self).hir == old(self).hir,
            result_value(r) == inner_value(*old(self).hir, *expr, (old(self).depth - 1) as nat),
        decreases RECURSION_LIMIT + 1 - old(self).depth, 0int,
    {
        proof {
            lemma_peeled_wf(*expr, self.hir.variables@.len());
        }
        let expr = expr.peel_parens();
        match &expr.kind {
            ExprKind::Binary(l, op, r) => {
                let l = self.eval_expr(l)?;
                let r = self.eval_expr(r)?;
                match l.binop(&r, *op) {
                    Ok(v) => Ok(v),
                    Err(k) => Err(EvalError::from(k)),
                }
            },
            ExprKind::Ident(res) => {
                if res.len() == 1 {
                    if let Res::Variable(id) = res[0] {
                        let v = self.hir.variable(id);
                        if !matches!(v.mutability, Some(VarMut::Constant)) {
                            return Err(EvalError::from(EvalErrorKind::NonConstantVar));
                        }
                        match &v.initializer {
                            Some(init) => {
                                return self.eval_expr(init);
                            },
                            None => {
                                return Err(EvalError::from(EvalErrorKind::UnsupportedExpr));
                            },
                        }
                    }
                }
                Err(EvalError::from(EvalErrorKind::UnsupportedExpr))
            },
            ExprKind::Lit(lit) => Self::eval_lit(lit),
            ExprKind::Ternary(c, t, f) => {
                let c = self.eval_expr(c)?;
                if c.to_bool() {
                    self.eval_expr(t)
                } else {
                    self.eval_expr(f)
                }
            },
            ExprKind::Unary(op, v) => {
                let v = self.eval_expr(v)?;
                match v.unop(*op) {
                    Ok(x) => Ok(x),
                    Err(k) => Err(EvalError::from(k)),
                }
            },
            ExprKind::Error(guar) => Err(EvalError::from(EvalErrorKind::AlreadyEmitted(*guar))),
            _ => Err(EvalError::from(EvalErrorKind::UnsupportedExpr)),
        }
    }

    fn eval_lit(lit: &Lit) -> (r: Result<IntScalar, EvalError>)
        ensures
            result_value(r) == lit_value(lit.kind),
    {
        match &lit.kind {
            LitKind::Number(bytes) => {
                if bytes.len() > 32 {
                    return Err(EvalError::from(EvalErrorKind::IntTooBig));
                }
                Ok(IntScalar::from_be_bytes(bytes.as_slice()))
            },
            LitKind::Address(address) => Ok(IntScalar::from_be_bytes(address.as_slice())),
            LitKind::Bool(b) => Ok(IntScalar::from_bool(*b)),
            LitKind::Error(guar) => Err(EvalError::from(EvalErrorKind::AlreadyEmitted(*guar))),
            _ => Err(EvalError::from(EvalErrorKind::UnsupportedLiteral)),
        }
    }
}

/// Evaluation is a function of the expression and the declarations: two
/// evaluations of one expression that succeed, whatever was reported around
/// them, give the same scalar.
pub proof fn lemma_eval_idempotent(
    hir: Hir,
    expr: Expr,
    r1: Result<IntScalar, ErrorGuaranteed>,
    r2: Result<IntScalar, ErrorGuaranteed>,
    before1: Seq<Diagnostic>,
    after1: Seq<Diagnostic>,
    before2: Seq<Diagnostic>,
    after2: Seq<Diagnostic>,
)
    requires
        eval_outcome(eval_value(hir, expr, 0), r1, expr, before1, after1),
        eval_outcome(eval_value(hir, expr, 0), r2, expr, before2, after2),
        eval_value(hir, expr, 0) is Ok,
    ensures
        r1 == r2,
        after1 == before1,
        after2 == before2,
{
    let x = r1->Ok_0;
    let y = r2->Ok_0;
    lemma_limbs_of_value(x.limbs);
    lemma_limbs_of_value(y.limbs);
    assert(x.limbs@ =~= y.limbs@);
    assert(x.limbs == y.limbs);
}

/// An expression met at the deepest level fails with the recursion limit, at
/// its own location.
pub proof fn lemma_depth_limit(hir: Hir, expr: Expr)
    ensures
        eval_value(hir, expr, RECURSION_LIMIT as nat) == Err::<nat, EvalError>(
            EvalError { kind: EvalErrorKind::RecursionLimitReached, span: expr.span },
        ),
{
}

/// A conditional whose condition evaluates to a non-zero value evaluates its
/// first branch alone: the second branch, whatever it holds, takes no part.
pub proof fn lemma_ternary_lazy(hir: Hir, span: Span, c: Expr, t: Expr, f1: Expr, f2: Expr)
    requires
        eval_value(hir, c, 1) matches Ok(v) && v != 0,
    ensures
        eval_value(
            hir,
            Expr { span, kind: ExprKind::Ternary(Box::new(c), Box::new(t), Box::new(f1)) },
            0,
        ) == backfill(eval_value(hir, t, 1), span),
        eval_value(
            hir,
            Expr { span, kind: ExprKind::Ternary(Box::new(c), Box::new(t), Box::new(f1)) },
            0,
        ) == eval_value(
            hir,
            Expr { span, kind: ExprKind::Ternary(Box::new(c), Box::new(t), Box::new(f2)) },
            0,
        ),
{
    let e1 = Expr { span, kind: ExprKind::Ternary(Box::new(c), Box::new(t), Box::new(f1)) };
    let e2 = Expr { span, kind: ExprKind::Ternary(Box::new(c), Box::new(t), Box::new(f2)) };
    assert(peeled(e1) == e1);
    assert(peeled(e2) == e2);
}

/// The expression inside parentheses is well formed where the whole is.
proof fn lemma_peeled_wf(e: Expr, n: nat)
    requires
        expr_wf(e, n),
    ensures
        expr_wf(peeled(e), n),
    decreases e,
{
    if let ExprKind::Tuple(v) = e.kind {
        if v@.len() == 1 {
            lemma_peeled_wf(v@[0], n);
        }
    }
}

} // verus!
