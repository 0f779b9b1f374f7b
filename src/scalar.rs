use alloy_primitives::U256;
use std::cmp::Ordering;
use vstd::arithmetic::power::pow;
use vstd::arithmetic::power2::pow2;
use vstd::arithmetic::div_mod::{
    lemma_fundamental_div_mod_converse_div, lemma_fundamental_div_mod_converse_mod,
};
use vstd::prelude::*;

use crate::eval::EvalErrorKind;
use crate::hir::{BinOpKind, UnOpKind};

verus! {

/// The base of one 64-bit limb.
pub open spec fn limb_base() -> nat {
    0x1_0000_0000_0000_0000
}

/// `2^256`: one more than the largest 256-bit value.
pub open spec fn word_modulus() -> nat {
    limb_base() * limb_base() * limb_base() * limb_base()
}

/// The number whose little-endian 64-bit limbs are `l0`, `l1`, `l2`, `l3`.
pub open spec fn of_limbs(l0: u64, l1: u64, l2: u64, l3: u64) -> nat {
    l0 as nat + limb_base() * (l1 as nat + limb_base() * (l2 as nat + limb_base() * l3 as nat))
}

/// The number that the little-endian limbs `l` stand for.
pub open spec fn limbs_value(l: [u64; 4]) -> nat {
    of_limbs(l@[0], l@[1], l@[2], l@[3])
}

/// Limb `i` (least significant first) of `n`.
pub open spec fn limb(n: nat, i: nat) -> u64
    decreases i,
{
    if i == 0 {
        (n % limb_base()) as u64
    } else {
        limb(n / limb_base(), (i - 1) as nat)
    }
}

/// The number whose limbs are the bitwise or of those of `a` and `b`.
pub open spec fn bit_or(a: nat, b: nat) -> nat {
    of_limbs(limb(a, 0) | limb(b, 0), limb(a, 1) | limb(b, 1), limb(a, 2) | limb(b, 2), limb(a, 3) | limb(b, 3))
}

/// The number whose limbs are the bitwise and of those of `a` and `b`.
pub open spec fn bit_and(a: nat, b: nat) -> nat {
    of_limbs(limb(a, 0) & limb(b, 0), limb(a, 1) & limb(b, 1), limb(a, 2) & limb(b, 2), limb(a, 3) & limb(b, 3))
}

/// The number whose limbs are the bitwise exclusive or of those of `a` and `b`.
pub open spec fn bit_xor(a: nat, b: nat) -> nat {
    of_limbs(limb(a, 0) ^ limb(b, 0), limb(a, 1) ^ limb(b, 1), limb(a, 2) ^ limb(b, 2), limb(a, 3) ^ limb(b, 3))
}

/// The number that the big-endian bytes `b` stand for.
pub open spec fn be_value(b: Seq<u8>) -> nat
    decreases b.len(),
{
    if b.len() == 0 {
        0
    } else {
        be_value(b.drop_last()) * 256 + b.last() as nat
    }
}

/// `v` read as a two's-complement signed 256-bit number.
pub open spec fn signed_value(v: nat) -> int {
    if v >= word_modulus() / 2 {
        v - word_modulus()
    } else {
        v as int
    }
}

/// `v` shifted right by `s` bits, the sign bit copied into the vacated bits.
pub open spec fn sar_value(v: nat, s: nat) -> nat {
    ((signed_value(v) / (pow2(s) as int)) % (word_modulus() as int)) as nat
}

/// A shift amount as it is handed to the shift: clamped to `usize::MAX`.
pub open spec fn shift_amount(r: nat) -> nat {
    if r <= usize::MAX {
        r
    } else {
        usize::MAX as nat
    }
}

/// `1` for `true`, `0` for `false`.
pub open spec fn bool_value(b: bool) -> nat {
    if b {
        1
    } else {
        0
    }
}

/// The order of two numbers.
pub open spec fn nat_cmp(a: nat, b: nat) -> Ordering {
    if a < b {
        Ordering::Less
    } else if a == b {
        Ordering::Equal
    } else {
        Ordering::Greater
    }
}

/// The result of `l op r` on 256-bit values.
pub open spec fn binop_value(l: nat, r: nat, op: BinOpKind) -> Result<nat, EvalErrorKind> {
    let m = word_modulus();
    match op {
        BinOpKind::Lt => Ok(bool_value(l < r)),
        BinOpKind::Le => Ok(bool_value(l <= r)),
        BinOpKind::Gt => Ok(bool_value(l > r)),
        BinOpKind::Ge => Ok(bool_value(l >= r)),
        BinOpKind::Eq => Ok(bool_value(l == r)),
        BinOpKind::Ne => Ok(bool_value(l != r)),
        BinOpKind::Or | BinOpKind::BitOr => Ok(bit_or(l, r)),
        BinOpKind::And | BinOpKind::BitAnd => Ok(bit_and(l, r)),
        BinOpKind::BitXor => Ok(bit_xor(l, r)),
        BinOpKind::Shr => Ok(l / pow2(shift_amount(r))),
        BinOpKind::Shl => Ok((l * pow2(shift_amount(r))) % m),
        BinOpKind::Sar => Ok(sar_value(l, shift_amount(r))),
        BinOpKind::Add => if l + r < m {
            Ok(l + r)
        } else {
            Err(EvalErrorKind::ArithmeticOverflow)
        },
        BinOpKind::Sub => if l >= r {
            Ok((l - r) as nat)
        } else {
            Err(EvalErrorKind::ArithmeticOverflow)
        },
        BinOpKind::Pow => if pow(l as int, r) < m {
            Ok(pow(l as int, r) as nat)
        } else {
            Err(EvalErrorKind::ArithmeticOverflow)
        },
        BinOpKind::Mul => if l * r < m {
            Ok(l * r)
        } else {
            Err(EvalErrorKind::ArithmeticOverflow)
        },
        BinOpKind::Div => if r == 0 {
            Err(EvalErrorKind::DivisionByZero)
        } else {
            Ok(l / r)
        },
        BinOpKind::Rem => if r == 0 {
            Err(EvalErrorKind::DivisionByZero)
        } else {
            Ok(l % r)
        },
    }
}

/// The result of `op v` on a 256-bit value.
pub open spec fn unop_value(v: nat, op: UnOpKind) -> Result<nat, EvalErrorKind> {
    match op {
        UnOpKind::PreInc | UnOpKind::PreDec | UnOpKind::PostInc | UnOpKind::PostDec => Err(
            EvalErrorKind::UnsupportedUnaryOp,
        ),
        UnOpKind::Not | UnOpKind::BitNot => Ok((word_modulus() - 1 - v) as nat),
        UnOpKind::Neg => Ok(((word_modulus() - v) as nat) % word_modulus()),
    }
}

/// The limbs of the number that `l` stands for are those of `l`.
pub proof fn lemma_limbs_of_value(l: [u64; 4])
    ensures
        limb(limbs_value(l), 0) == l@[0],
        limb(limbs_value(l), 1) == l@[1],
        limb(limbs_value(l), 2) == l@[2],
        limb(limbs_value(l), 3) == l@[3],
{
    reveal_with_fuel(limb, 4);
    let b = limb_base() as int;
    let (l0, l1, l2, l3) = (l@[0] as int, l@[1] as int, l@[2] as int, l@[3] as int);
    let r2 = l2 + b * l3;
    let r1 = l1 + b * r2;
    let v = l0 + b * r1;
    assert(v == limbs_value(l));
    assert(v == r1 * b + l0);
    assert(r1 == r2 * b + l1);
    assert(r2 == l3 * b + l2);
    assert(l3 == 0 * b + l3);
    lemma_fundamental_div_mod_converse_div(v, b, r1, l0);
    lemma_fundamental_div_mod_converse_mod(v, b, r1, l0);
    lemma_fundamental_div_mod_converse_div(r1, b, r2, l1);
    lemma_fundamental_div_mod_converse_mod(r1, b, r2, l1);
    lemma_fundamental_div_mod_converse_div(r2, b, l3, l2);
    lemma_fundamental_div_mod_converse_mod(r2, b, l3, l2);
    lemma_fundamental_div_mod_converse_mod(l3, b, 0, l3);
}

/// The number is zero exactly when each limb is.
pub proof fn lemma_value_zero(l: [u64; 4])
    ensures
        (limbs_value(l) == 0) <==> (l@[0] == 0 && l@[1] == 0 && l@[2] == 0 && l@[3] == 0),
{
    let b = limb_base();
    let (l0, l1, l2, l3) = (l@[0] as nat, l@[1] as nat, l@[2] as nat, l@[3] as nat);
    assert((l0 + b * (l1 + b * (l2 + b * l3)) == 0) <==> (l0 == 0 && l1 == 0 && l2 == 0 && l3
        == 0)) by (nonlinear_arith)
        requires
            b > 0,
    ;
}

/// A 256-bit unsigned integer: the value of every evaluated constant. Booleans are
/// `0` and `1`; addresses are their twenty bytes, zero-extended.
#[derive(Clone, Copy, Debug, PartialEq, Eq)]
pub struct IntScalar {
    /// The value's 64-bit limbs, least significant first.
    pub limbs: [u64; 4],
}

/// Maps a result over scalars to one over their values.
pub open spec fn result_value<E>(r: Result<IntScalar, E>) -> Result<nat, E> {
    match r {
        Ok(x) => Ok(x.value()),
        Err(e) => Err(e),
    }
}

impl IntScalar {
    /// The number this scalar stands for.
    pub open spec fn value(self) -> nat {
        limbs_value(self.limbs)
    }

    /// Creates a scalar from its little-endian 64-bit limbs.
    pub fn new(limbs: [u64; 4]) -> (r: Self)
        ensures
            r.limbs == limbs,
    {
        IntScalar { limbs }
    }

    /// Creates a new integer value from a boolean: `1` or `0`.
    pub fn from_bool(value: bool) -> (r: Self)
        ensures
            r.value() == bool_value(value),
    {
        let r = IntScalar { limbs: [if value { 1 } else { 0 }, 0, 0, 0] };
        assert(r.value() == r.limbs@[0] as nat);
        r
    }

    /// Creates a new integer value from at most 32 big-endian bytes.
    pub fn from_be_bytes(bytes: &[u8]) -> (r: Self)
        requires
            bytes@.len() <= 32,
        ensures
            r.value() == be_value(bytes@),
    {
        IntScalar { limbs: u256_from_be_slice(bytes) }
    }

    /// Converts the integer value to a boolean: `true` unless it is zero.
    pub fn to_bool(&self) -> (r: bool)
        ensures
            r == (self.value() != 0),
    {
        proof {
            lemma_value_zero(self.limbs);
        }
        !(self.limbs[0] == 0 && self.limbs[1] == 0 && self.limbs[2] == 0 && self.limbs[3] == 0)
    }

    /// The value as a shift amount: itself if it fits in `usize`, else `usize::MAX`.
    fn shift_amount(&self) -> (r: usize)
        ensures
            r as nat == shift_amount(self.value()),
    {
        let ghost b = limb_base();
        let (l0, l1, l2, l3) = (self.limbs[0], self.limbs[1], self.limbs[2], self.limbs[3]);
        if l1 == 0 && l2 == 0 && l3 == 0 && l0 as u128 <= usize::MAX as u128 {
            assert(self.value() == l0 as nat);
            l0 as usize
        } else {
            proof {
                if l1 == 0 && l2 == 0 && l3 == 0 {
                    assert(self.value() == l0 as nat);
                } else {
                    let rest = l1 as nat + b * (l2 as nat + b * l3 as nat);
                    assert(rest >= 1);
                    assert(l0 as nat + b * rest >= b) by (nonlinear_arith)
                        requires
                            rest >= 1,
                    ;
                    assert(b > usize::MAX);
                }
            }
            usize::MAX
        }
    }

    /// Applies the given unary operation to this value.
    pub fn unop(&self, op: UnOpKind) -> (r: Result<Self, EvalErrorKind>)
        ensures
            result_value(r) == unop_value(self.value(), op),
    {
        match op {
            UnOpKind::PreInc | UnOpKind::PreDec | UnOpKind::PostInc | UnOpKind::PostDec => Err(
                EvalErrorKind::UnsupportedUnaryOp,
            ),
            UnOpKind::Not | UnOpKind::BitNot => Ok(self.not()),
            UnOpKind::Neg => Ok(IntScalar { limbs: u256_wrapping_neg(self.limbs) }),
        }
    }

    /// The bitwise complement: `2^256 - 1 - self`.
    fn not(&self) -> (r: Self)
        ensures
            r.value() == word_modulus() - 1 - self.value(),
    {
        let l = self.limbs;
        let r = IntScalar { limbs: [!l[0], !l[1], !l[2], !l[3]] };
        proof {
            assert(forall|x: u64| #[trigger] (!x) == 0xffff_ffff_ffff_ffffu64 - x) by (bit_vector);
            let b = limb_base() as int;
            let (l0, l1, l2, l3) = (l@[0] as int, l@[1] as int, l@[2] as int, l@[3] as int);
            assert((b - 1 - l0) + b * ((b - 1 - l1) + b * ((b - 1 - l2) + b * (b - 1 - l3))) == b
                * b * b * b - 1 - (l0 + b * (l1 + b * (l2 + b * l3)))) by (nonlinear_arith);
        }
        r
    }

    fn from_option(o: Option<[u64; 4]>, err: EvalErrorKind) -> (r: Result<Self, EvalErrorKind>)
        ensures
            o matches Some(l) ==> r == Ok::<IntScalar, EvalErrorKind>(IntScalar { limbs: l }),
            o is None ==> r == Err::<IntScalar, EvalErrorKind>(err),
    {
        match o {
            Some(l) => Ok(IntScalar { limbs: l }),
            None => Err(err),
        }
    }

    /// Applies the given binary operation to this value, `self` on the left.
    pub fn binop(&self, r: &Self, op: BinOpKind) -> (res: Result<Self, EvalErrorKind>)
        ensures
            result_value(res) == binop_value(self.value(), r.value(), op),
    {
        let (a, b) = (self.limbs, r.limbs);
        proof {
            lemma_limbs_of_value(a);
            lemma_limbs_of_value(b);
        }
        match op {
            BinOpKind::Lt => Ok(Self::from_bool(matches!(u256_cmp(a, b), Ordering::Less))),
            BinOpKind::Le => Ok(Self::from_bool(!matches!(u256_cmp(a, b), Ordering::Greater))),
            BinOpKind::Gt => Ok(Self::from_bool(matches!(u256_cmp(a, b), Ordering::Greater))),
            BinOpKind::Ge => Ok(Self::from_bool(!matches!(u256_cmp(a, b), Ordering::Less))),
            BinOpKind::Eq => Ok(Self::from_bool(matches!(u256_cmp(a, b), Ordering::Equal))),
            BinOpKind::Ne => Ok(Self::from_bool(!matches!(u256_cmp(a, b), Ordering::Equal))),
            BinOpKind::Or | BinOpKind::BitOr => Ok(
                IntScalar { limbs: [a[0] | b[0], a[1] | b[1], a[2] | b[2], a[3] | b[3]] },
            ),
            BinOpKind::And | BinOpKind::BitAnd => Ok(
                IntScalar { limbs: [a[0] & b[0], a[1] & b[1], a[2] & b[2], a[3] & b[3]] },
            ),
            BinOpKind::BitXor => Ok(
                IntScalar { limbs: [a[0] ^ b[0], a[1] ^ b[1], a[2] ^ b[2], a[3] ^ b[3]] },
            ),
            BinOpKind::Shr => Ok(IntScalar { limbs: u256_wrapping_shr(a, r.shift_amount()) }),
            BinOpKind::Shl => Ok(IntScalar { limbs: u256_wrapping_shl(a, r.shift_amount()) }),
            BinOpKind::Sar => Ok(IntScalar { limbs: u256_arithmetic_shr(a, r.shift_amount()) }),
            BinOpKind::Add => Self::from_option(
                u256_checked_add(a, b),
                EvalErrorKind::ArithmeticOverflow,
            ),
            BinOpKind::Sub => Self::from_option(
                u256_checked_sub(a, b),
                EvalErrorKind::ArithmeticOverflow,
            ),
            BinOpKind::Pow => Self::from_option(
                u256_checked_pow(a, b),
                EvalErrorKind::ArithmeticOverflow,
            ),
            BinOpKind::Mul => Self::from_option(
                u256_checked_mul(a, b),
                EvalErrorKind::ArithmeticOverflow,
            ),
            BinOpKind::Div => Self::from_option(
                u256_checked_div(a, b),
                EvalErrorKind::DivisionByZero,
            ),
            BinOpKind::Rem => Self::from_option(
                u256_checked_rem(a, b),
                EvalErrorKind::DivisionByZero,
            ),
        }
    }
}

/// Relies on `Uint::cmp`: the order of the two values.
#[verifier::external_body]
fn u256_cmp(a: [u64; 4], b: [u64; 4]) -> (r: Ordering)
    ensures
        r == nat_cmp(limbs_value(a), limbs_value(b)),
{
    U256::from_limbs(a).cmp(&U256::from_limbs(b))
}

/// Relies on `Uint::checked_add`: the sum, or `None` if it needs more than 256 bits.
#[verifier::external_body]
fn u256_checked_add(a: [u64; 4], b: [u64; 4]) -> (r: Option<[u64; 4]>)
    ensures
        r matches Some(s) <==> limbs_value(a) + limbs_value(b) < word_modulus(),
        r matches Some(s) ==> limbs_value(s) == limbs_value(a) + limbs_value(b),
{
    U256::from_limbs(a).checked_add(U256::from_limbs(b)).map(U256::into_limbs)
}

/// Relies on `Uint::checked_sub`: the difference, or `None` if it is negative.
#[verifier::external_body]
fn u256_checked_sub(a: [u64; 4], b: [u64; 4]) -> (r: Option<[u64; 4]>)
    ensures
        r matches Some(s) <==> limbs_value(a) >= limbs_value(b),
        r matches Some(s) ==> limbs_value(s) == limbs_value(a) - limbs_value(b),
{
    U256::from_limbs(a).checked_sub(U256::from_limbs(b)).map(U256::into_limbs)
}

/// Relies on `Uint::checked_mul`: the product, or `None` if it needs more than 256 bits.
#[verifier::external_body]
fn u256_checked_mul(a: [u64; 4], b: [u64; 4]) -> (r: Option<[u64; 4]>)
    ensures
        r matches Some(s) <==> limbs_value(a) * limbs_value(b) < word_modulus(),
        r matches Some(s) ==> limbs_value(s) == limbs_value(a) * limbs_value(b),
{
    U256::from_limbs(a).checked_mul(U256::from_limbs(b)).map(U256::into_limbs)
}

/// Relies on `Uint::checked_pow`: `a` to the power `b` (`0^0 == 1`), or `None` if
/// it needs more than 256 bits.
#[verifier::external_body]
fn u256_checked_pow(a: [u64; 4], b: [u64; 4]) -> (r: Option<[u64; 4]>)
    ensures
        r matches Some(s) <==> pow(limbs_value(a) as int, limbs_value(b)) < word_modulus(),
        r matches Some(s) ==> limbs_value(s) == pow(limbs_value(a) as int, limbs_value(b)),
{
    U256::from_limbs(a).checked_pow(U256::from_limbs(b)).map(U256::into_limbs)
}

/// Relies on `Uint::checked_div`: the quotient, rounded down, or `None` if `b` is zero.
#[verifier::external_body]
fn u256_checked_div(a: [u64; 4], b: [u64; 4]) -> (r: Option<[u64; 4]>)
    ensures
        r matches Some(s) <==> limbs_value(b) != 0,
        r matches Some(s) ==> limbs_value(s) == limbs_value(a) / limbs_value(b),
{
    U256::from_limbs(a).checked_div(U256::from_limbs(b)).map(U256::into_limbs)
}

/// Relies on `Uint::checked_rem`: the remainder, or `None` if `b` is zero.
#[verifier::external_body]
fn u256_checked_rem(a: [u64; 4], b: [u64; 4]) -> (r: Option<[u64; 4]>)
    ensures
        r matches Some(s) <==> limbs_value(b) != 0,
        r matches Some(s) ==> limbs_value(s) == limbs_value(a) % limbs_value(b),
{
    U256::from_limbs(a).checked_rem(U256::from_limbs(b)).map(U256::into_limbs)
}

/// Relies on `Uint::wrapping_neg`: `2^256 - a`, modulo `2^256`.
#[verifier::external_body]
fn u256_wrapping_neg(a: [u64; 4]) -> (r: [u64; 4])
    ensures
        limbs_value(r) == ((word_modulus() - limbs_value(a)) as nat) % word_modulus(),
{
    U256::from_limbs(a).wrapping_neg().into_limbs()
}

/// Relies on `Uint::wrapping_shl`: `a * 2^s`, modulo `2^256` (zero once `s >= 256`).
#[verifier::external_body]
fn u256_wrapping_shl(a: [u64; 4], s: usize) -> (r: [u64; 4])
    ensures
        limbs_value(r) == (limbs_value(a) * pow2(s as nat)) % word_modulus(),
{
    U256::from_limbs(a).wrapping_shl(s).into_limbs()
}

/// Relies on `Uint::wrapping_shr`: `a / 2^s`, rounded down.
#[verifier::external_body]
fn u256_wrapping_shr(a: [u64; 4], s: usize) -> (r: [u64; 4])
    ensures
        limbs_value(r) == limbs_value(a) / pow2(s as nat),
{
    U256::from_limbs(a).wrapping_shr(s).into_limbs()
}

/// Relies on `Uint::arithmetic_shr`: `a` read as signed, divided by `2^s` and
/// rounded down, modulo `2^256`.
#[verifier::external_body]
fn u256_arithmetic_shr(a: [u64; 4], s: usize) -> (r: [u64; 4])
    ensures
        limbs_value(r) == sar_value(limbs_value(a), s as nat),
{
    U256::from_limbs(a).arithmetic_shr(s).into_limbs()
}

/// Relies on `Uint::from_be_slice`: the big-endian number in at most 32 bytes.
#[verifier::external_body]
fn u256_from_be_slice(bytes: &[u8]) -> (r: [u64; 4])
    requires
        bytes@.len() <= 32,
    ensures
        limbs_value(r) == be_value(bytes@),
{
    U256::from_be_slice(bytes).into_limbs()
}

} // verus!
