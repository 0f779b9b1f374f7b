use vstd::prelude::*;

use crate::diagnostics::ErrorGuaranteed;
use crate::span::Span;

verus! {

/// A unary operator.
#[derive(Clone, Copy, Debug, PartialEq, Eq, Structural)]
pub enum UnOpKind {
    /// `++x`
    PreInc,
    /// `--x`
    PreDec,
    /// `x++`
    PostInc,
    /// `x--`
    PostDec,
    /// `!x`
    Not,
    /// `-x`
    Neg,
    /// `~x`
    BitNot,
}

/// A binary operator.
#[derive(Clone, Copy, Debug, PartialEq, Eq, Structural)]
pub enum BinOpKind {
    /// `<`
    Lt,
    /// `<=`
    Le,
    /// `>`
    Gt,
    /// `>=`
    Ge,
    /// `==`
    Eq,
    /// `!=`
    Ne,
    /// `||`
    Or,
    /// `&&`
    And,
    /// `>>`
    Shr,
    /// `<<`
    Shl,
    /// `>>>`
    Sar,
    /// `&`
    BitAnd,
    /// `|`
    BitOr,
    /// `^`
    BitXor,
    /// `+`
    Add,
    /// `-`
    Sub,
    /// `**`
    Pow,
    /// `*`
    Mul,
    /// `/`
    Div,
    /// `%`
    Rem,
}

/// The index of a variable declaration in [`Hir::variables`].
#[derive(Clone, Copy, Debug, PartialEq, Eq, Structural)]
pub struct VariableId {
    pub index: usize,
}

/// What an identifier resolves to.
#[derive(Clone, Copy, Debug, PartialEq, Eq, Structural)]
pub enum Res {
    /// A variable declaration.
    Variable(VariableId),
    /// A declaration of another kind: a function, a contract, a type, ...
    Other,
}

/// The mutability of a variable.
#[derive(Clone, Copy, Debug, PartialEq, Eq, Structural)]
pub enum VarMut {
    /// `immutable`
    Immutable,
    /// `constant`
    Constant,
}

/// The kind of a literal.
#[derive(Clone, Debug)]
pub enum LitKind {
    /// A string literal.
    Str(String),
    /// A number: the big-endian bytes of its magnitude, without leading zero bytes.
    Number(Vec<u8>),
    /// A rational number: numerator and denominator, as big-endian magnitudes.
    Rational(Vec<u8>, Vec<u8>),
    /// An address: twenty big-endian bytes.
    Address([u8; 20]),
    /// `true` or `false`.
    Bool(bool),
    /// A literal that failed to parse; the error was reported.
    Error(ErrorGuaranteed),
}

/// A literal with its location.
#[derive(Clone, Debug)]
pub struct Lit {
    pub span: Span,
    pub kind: LitKind,
}

/// The kind of an expression.
#[derive(Debug)]
pub enum ExprKind {
    /// `[a, b, c]`
    Array(Vec<Expr>),
    /// `a op b`
    Binary(Box<Expr>, BinOpKind, Box<Expr>),
    /// `f(a, b)`
    Call(Box<Expr>, Vec<Expr>),
    /// `delete a`
    Delete(Box<Expr>),
    /// A name, with everything it resolves to.
    Ident(Vec<Res>),
    /// `a[b]`, or `a[]`
    Index(Box<Expr>, Option<Box<Expr>>),
    /// A literal.
    Lit(Lit),
    /// `a.b`
    Member(Box<Expr>),
    /// `new T`
    New,
    /// `payable(a)`
    Payable(Box<Expr>),
    /// `c ? a : b`
    Ternary(Box<Expr>, Box<Expr>, Box<Expr>),
    /// `(a, b)`; a tuple of one element is a parenthesized expression.
    Tuple(Vec<Expr>),
    /// `type(T)`
    TypeCall,
    /// A type, as in `uint256(a)`.
    Type,
    /// `op a` or `a op`
    Unary(UnOpKind, Box<Expr>),
    /// An expression that failed to resolve; the error was reported.
    Error(ErrorGuaranteed),
}

/// An expression with its location.
#[derive(Debug)]
pub struct Expr {
    pub span: Span,
    pub kind: ExprKind,
}

/// `e` without the parentheses around it.
pub open spec fn peeled(e: Expr) -> Expr
    decreases e,
{
    match e.kind {
        ExprKind::Tuple(v) => if v@.len() == 1 {
            peeled(v@[0])
        } else {
            e
        },
        _ => e,
    }
}

impl Expr {
    /// Returns the expression inside any number of enclosing parentheses.
    pub fn peel_parens(&self) -> (r: &Expr)
        ensures
            *r == peeled(*self),
        decreases self,
    {
        match &self.kind {
            ExprKind::Tuple(v) => {
                if v.len() == 1 {
                    proof {
                        assert(decreases_to!(*self => v@[0]));
                    }
                    v[0].peel_parens()
                } else {
                    self
                }
            },
            _ => self,
        }
    }
}

/// A variable declaration.
#[derive(Debug)]
pub struct Variable {
    pub span: Span,
    pub mutability: Option<VarMut>,
    pub initializer: Option<Box<Expr>>,
}

/// The declarations that expressions refer to.
#[derive(Debug)]
pub struct Hir {
    pub variables: Vec<Variable>,
}

impl Hir {
    /// Returns the declaration of the variable `id`.
    pub fn variable(&self, id: VariableId) -> (r: &Variable)
        requires
            id.index < self.variables@.len(),
        ensures
            *r == self.variables@[id.index as int],
    {
        &self.variables[id.index]
    }
}

} // verus!
