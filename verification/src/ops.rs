//! Operators on expressions. Each operator builds the node that stands
//! for it; nothing is computed.
//!
//! For the operators of the standard library the result is stated by its
//! view, in the `ensures` of the method; the standard specification
//! functions say nothing of it.
use vstd::prelude::*;
use crate::ast::{Ast, BinOp};
use crate::builder::{
    _Add, _And, _Div, _Eq, _LAnd, _LOr, _LSH, _LTH, _MTH, _Mod, _Mul, _Neq, _OLS, _OMR, _Or, _RSH,
    _Sub, _Veq, _Xor, Operand,
};
use crate::expr::{clone_expr, E};

verus! {

/// The node of a two-operand expression.
pub open spec fn node(op: BinOp, l: Ast, r: Ast) -> Ast {
    Ast::Binary(op, Box::new(l), Box::new(r))
}

/// Bitwise negation of an expression that is kept.
pub trait Notc {
    /// `~self`
    fn not(&self) -> Box<E>;
}

impl Notc for Box<E> {
    fn not(&self) -> (r: Box<E>)
        ensures
            r@ == Ast::Not(Box::new(self@)),
    {
        Box::new(E::No(Box::new(clone_expr(self))))
    }
}

impl core::ops::Not for Box<E> {
    type Output = Box<E>;

    /// `~self`
    fn not(self) -> (r: Box<E>)
        ensures
            r@ == Ast::Not(Box::new(self@)),
    {
        Box::new(E::No(self))
    }
}

impl vstd::std_specs::ops::NotSpecImpl for Box<E> {
    open spec fn obeys_not_spec() -> bool {
        false
    }

    open spec fn not_req(self) -> bool {
        true
    }

    open spec fn not_spec(self) -> Box<E> {
        arbitrary()
    }
}

impl<T: Operand> core::ops::Add<T> for Box<E> {
    type Output = Box<E>;

    /// `self + other`
    fn add(self, other: T) -> (r: Box<E>)
        ensures
            r@ == node(BinOp::Add, self@, other.ast()),
    {
        _Add(self, other)
    }
}

impl<T: Operand> vstd::std_specs::ops::AddSpecImpl<T> for Box<E> {
    open spec fn obeys_add_spec() -> bool {
        false
    }

    open spec fn add_req(self, rhs: T) -> bool {
        true
    }

    open spec fn add_spec(self, rhs: T) -> Box<E> {
        arbitrary()
    }
}

impl<'a, T: Operand> core::ops::Add<T> for &'a Box<E> {
    type Output = Box<E>;

    /// `self + other`
    fn add(self, other: T) -> (r: Box<E>)
        ensures
            r@ == node(BinOp::Add, self@, other.ast()),
    {
        _Add(self, other)
    }
}

impl<'a, T: Operand> vstd::std_specs::ops::AddSpecImpl<T> for &'a Box<E> {
    open spec fn obeys_add_spec() -> bool {
        false
    }

    open spec fn add_req(self, rhs: T) -> bool {
        true
    }

    open spec fn add_spec(self, rhs: T) -> Box<E> {
        arbitrary()
    }
}

impl<T: Operand> core::ops::Sub<T> for Box<E> {
    type Output = Box<E>;

    /// `self - other`
    fn sub(self, other: T) -> (r: Box<E>)
        ensures
            r@ == node(BinOp::Sub, self@, other.ast()),
    {
        _Sub(self, other)
    }
}

impl<T: Operand> vstd::std_specs::ops::SubSpecImpl<T> for Box<E> {
    open spec fn obeys_sub_spec() -> bool {
        false
    }

    open spec fn sub_req(self, rhs: T) -> bool {
        true
    }

    open spec fn sub_spec(self, rhs: T) -> Box<E> {
        arbitrary()
    }
}

impl<'a, T: Operand> core::ops::Sub<T> for &'a Box<E> {
    type Output = Box<E>;

    /// `self - other`
    fn sub(self, other: T) -> (r: Box<E>)
        ensures
            r@ == node(BinOp::Sub, self@, other.ast()),
    {
        _Sub(self, other)
    }
}

impl<'a, T: Operand> vstd::std_specs::ops::SubSpecImpl<T> for &'a Box<E> {
    open spec fn obeys_sub_spec() -> bool {
        false
    }

    open spec fn sub_req(self, rhs: T) -> bool {
        true
    }

    open spec fn sub_spec(self, rhs: T) -> Box<E> {
        arbitrary()
    }
}

impl<T: Operand> core::ops::Mul<T> for Box<E> {
    type Output = Box<E>;

    /// `self * other`
    fn mul(self, other: T) -> (r: Box<E>)
        ensures
            r@ == node(BinOp::Mul, self@, other.ast()),
    {
        _Mul(self, other)
    }
}

impl<T: Operand> vstd::std_specs::ops::MulSpecImpl<T> for Box<E> {
    open spec fn obeys_mul_spec() -> bool {
        false
    }

    open spec fn mul_req(self, rhs: T) -> bool {
        true
    }

    open spec fn mul_spec(self, rhs: T) -> Box<E> {
        arbitrary()
    }
}

impl<'a, T: Operand> core::ops::Mul<T> for &'a Box<E> {
    type Output = Box<E>;

    /// `self * other`
    fn mul(self, other: T) -> (r: Box<E>)
        ensures
            r@ == node(BinOp::Mul, self@, other.ast()),
    {
        _Mul(self, other)
    }
}

impl<'a, T: Operand> vstd::std_specs::ops::MulSpecImpl<T> for &'a Box<E> {
    open spec fn obeys_mul_spec() -> bool {
        false
    }

    open spec fn mul_req(self, rhs: T) -> bool {
        true
    }

    open spec fn mul_spec(self, rhs: T) -> Box<E> {
        arbitrary()
    }
}

impl<T: Operand> core::ops::Div<T> for Box<E> {
    type Output = Box<E>;

    /// `self / other`
    fn div(self, other: T) -> (r: Box<E>)
        ensures
            r@ == node(BinOp::Div, self@, other.ast()),
    {
        _Div(self, other)
    }
}

impl<T: Operand> vstd::std_specs::ops::DivSpecImpl<T> for Box<E> {
    open spec fn obeys_div_spec() -> bool {
        false
    }

    open spec fn div_req(self, rhs: T) -> bool {
        true
    }

    open spec fn div_spec(self, rhs: T) -> Box<E> {
        arbitrary()
    }
}

impl<'a, T: Operand> core::ops::Div<T> for &'a Box<E> {
    type Output = Box<E>;

    /// `self / other`
    fn div(self, other: T) -> (r: Box<E>)
        ensures
            r@ == node(BinOp::Div, self@, other.ast()),
    {
        _Div(self, other)
    }
}

impl<'a, T: Operand> vstd::std_specs::ops::DivSpecImpl<T> for &'a Box<E> {
    open spec fn obeys_div_spec() -> bool {
        false
    }

    open spec fn div_req(self, rhs: T) -> bool {
        true
    }

    open spec fn div_spec(self, rhs: T) -> Box<E> {
        arbitrary()
    }
}

impl<T: Operand> core::ops::Rem<T> for Box<E> {
    type Output = Box<E>;

    /// `self % other`
    fn rem(self, other: T) -> (r: Box<E>)
        ensures
            r@ == node(BinOp::Mod, self@, other.ast()),
    {
        _Mod(self, other)
    }
}

impl<T: Operand> vstd::std_specs::ops::RemSpecImpl<T> for Box<E> {
    open spec fn obeys_rem_spec() -> bool {
        false
    }

    open spec fn rem_req(self, rhs: T) -> bool {
        true
    }

    open spec fn rem_spec(self, rhs: T) -> Box<E> {
        arbitrary()
    }
}

impl<'a, T: Operand> core::ops::Rem<T> for &'a Box<E> {
    type Output = Box<E>;

    /// `self % other`
    fn rem(self, other: T) -> (r: Box<E>)
        ensures
            r@ == node(BinOp::Mod, self@, other.ast()),
    {
        _Mod(self, other)
    }
}

impl<'a, T: Operand> vstd::std_specs::ops::RemSpecImpl<T> for &'a Box<E> {
    open spec fn obeys_rem_spec() -> bool {
        false
    }

    open spec fn rem_req(self, rhs: T) -> bool {
        true
    }

    open spec fn rem_spec(self, rhs: T) -> Box<E> {
        arbitrary()
    }
}

impl<T: Operand> core::ops::BitOr<T> for Box<E> {
    type Output = Box<E>;

    /// `self | other`
    fn bitor(self, other: T) -> (r: Box<E>)
        ensures
            r@ == node(BinOp::Or, self@, other.ast()),
    {
        _Or(self, other)
    }
}

impl<T: Operand> vstd::std_specs::ops::BitOrSpecImpl<T> for Box<E> {
    open spec fn obeys_bitor_spec() -> bool {
        false
    }

    open spec fn bitor_req(self, rhs: T) -> bool {
        true
    }

    open spec fn bitor_spec(self, rhs: T) -> Box<E> {
        arbitrary()
    }
}

impl<'a, T: Operand> core::ops::BitOr<T> for &'a Box<E> {
    type Output = Box<E>;

    /// `self | other`
    fn bitor(self, other: T) -> (r: Box<E>)
        ensures
            r@ == node(BinOp::Or, self@, other.ast()),
    {
        _Or(self, other)
    }
}

impl<'a, T: Operand> vstd::std_specs::ops::BitOrSpecImpl<T> for &'a Box<E> {
    open spec fn obeys_bitor_spec() -> bool {
        false
    }

    open spec fn bitor_req(self, rhs: T) -> bool {
        true
    }

    open spec fn bitor_spec(self, rhs: T) -> Box<E> {
        arbitrary()
    }
}

impl<T: Operand> core::ops::BitAnd<T> for Box<E> {
    type Output = Box<E>;

    /// `self & other`
    fn bitand(self, other: T) -> (r: Box<E>)
        ensures
            r@ == node(BinOp::And, self@, other.ast()),
    {
        _And(self, other)
    }
}

impl<T: Operand> vstd::std_specs::ops::BitAndSpecImpl<T> for Box<E> {
    open spec fn obeys_bitand_spec() -> bool {
        false
    }

    open spec fn bitand_req(self, rhs: T) -> bool {
        true
    }

    open spec fn bitand_spec(self, rhs: T) -> Box<E> {
        arbitrary()
    }
}

impl<'a, T: Operand> core::ops::BitAnd<T> for &'a Box<E> {
    type Output = Box<E>;

    /// `self & other`
    fn bitand(self, other: T) -> (r: Box<E>)
        ensures
            r@ == node(BinOp::And, self@, other.ast()),
    {
        _And(self, other)
    }
}

impl<'a, T: Operand> vstd::std_specs::ops::BitAndSpecImpl<T> for &'a Box<E> {
    open spec fn obeys_bitand_spec() -> bool {
        false
    }

    open spec fn bitand_req(self, rhs: T) -> bool {
        true
    }

    open spec fn bitand_spec(self, rhs: T) -> Box<E> {
        arbitrary()
    }
}

impl<T: Operand> core::ops::BitXor<T> for Box<E> {
    type Output = Box<E>;

    /// `self ^ other`
    fn bitxor(self, other: T) -> (r: Box<E>)
        ensures
            r@ == node(BinOp::Xor, self@, other.ast()),
    {
        _Xor(self, other)
    }
}

impl<T: Operand> vstd::std_specs::ops::BitXorSpecImpl<T> for Box<E> {
    open spec fn obeys_bitxor_spec() -> bool {
        false
    }

    open spec fn bitxor_req(self, rhs: T) -> bool {
        true
    }

    open spec fn bitxor_spec(self, rhs: T) -> Box<E> {
        arbitrary()
    }
}

impl<'a, T: Operand> core::ops::BitXor<T> for &'a Box<E> {
    type Output = Box<E>;

    /// `self ^ other`
    fn bitxor(self, other: T) -> (r: Box<E>)
        ensures
            r@ == node(BinOp::Xor, self@, other.ast()),
    {
        _Xor(self, other)
    }
}

impl<'a, T: Operand> vstd::std_specs::ops::BitXorSpecImpl<T> for &'a Box<E> {
    open spec fn obeys_bitxor_spec() -> bool {
        false
    }

    open spec fn bitxor_req(self, rhs: T) -> bool {
        true
    }

    open spec fn bitxor_spec(self, rhs: T) -> Box<E> {
        arbitrary()
    }
}

impl<T: Operand> core::ops::Shl<T> for Box<E> {
    type Output = Box<E>;

    /// `self << other`
    fn shl(self, other: T) -> (r: Box<E>)
        ensures
            r@ == node(BinOp::LShift, self@, other.ast()),
    {
        _LSH(self, other)
    }
}

impl<T: Operand> vstd::std_specs::ops::ShlSpecImpl<T> for Box<E> {
    open spec fn obeys_shl_spec() -> bool {
        false
    }

    open spec fn shl_req(self, rhs: T) -> bool {
        true
    }

    open spec fn shl_spec(self, rhs: T) -> Box<E> {
        arbitrary()
    }
}

impl<'a, T: Operand> core::ops::Shl<T> for &'a Box<E> {
    type Output = Box<E>;

    /// `self << other`
    fn shl(self, other: T) -> (r: Box<E>)
        ensures
            r@ == node(BinOp::LShift, self@, other.ast()),
    {
        _LSH(self, other)
    }
}

impl<'a, T: Operand> vstd::std_specs::ops::ShlSpecImpl<T> for &'a Box<E> {
    open spec fn obeys_shl_spec() -> bool {
        false
    }

    open spec fn shl_req(self, rhs: T) -> bool {
        true
    }

    open spec fn shl_spec(self, rhs: T) -> Box<E> {
        arbitrary()
    }
}

impl<T: Operand> core::ops::Shr<T> for Box<E> {
    type Output = Box<E>;

    /// `self >> other`
    fn shr(self, other: T) -> (r: Box<E>)
        ensures
            r@ == node(BinOp::RShift, self@, other.ast()),
    {
        _RSH(self, other)
    }
}

impl<T: Operand> vstd::std_specs::ops::ShrSpecImpl<T> for Box<E> {
    open spec fn obeys_shr_spec() -> bool {
        false
    }

    open spec fn shr_req(self, rhs: T) -> bool {
        true
    }

    open spec fn shr_spec(self, rhs: T) -> Box<E> {
        arbitrary()
    }
}

impl<'a, T: Operand> core::ops::Shr<T> for &'a Box<E> {
    type Output = Box<E>;

    /// `self >> other`
    fn shr(self, other: T) -> (r: Box<E>)
        ensures
            r@ == node(BinOp::RShift, self@, other.ast()),
    {
        _RSH(self, other)
    }
}

impl<'a, T: Operand> vstd::std_specs::ops::ShrSpecImpl<T> for &'a Box<E> {
    open spec fn obeys_shr_spec() -> bool {
        false
    }

    open spec fn shr_req(self, rhs: T) -> bool {
        true
    }

    open spec fn shr_spec(self, rhs: T) -> Box<E> {
        arbitrary()
    }
}

/// Comparison for equality, as an expression.
pub trait PartialEq<Rhs = Self> {
    /// `self == other`
    fn eq(self, other: Rhs) -> Box<E>;

    /// `self != other`
    fn ne(self, other: Rhs) -> Box<E>;
}

impl<T: Operand> PartialEq<T> for Box<E> {
    fn eq(self, other: T) -> (r: Box<E>)
        ensures
            r@ == node(BinOp::Equal, self@, other.ast()),
    {
        _Eq(self, other)
    }

    fn ne(self, other: T) -> (r: Box<E>)
        ensures
            r@ == node(BinOp::NotEqual, self@, other.ast()),
    {
        _Neq(self, other)
    }
}

impl<'a, T: Operand> PartialEq<T> for &'a Box<E> {
    fn eq(self, other: T) -> (r: Box<E>)
        ensures
            r@ == node(BinOp::Equal, self@, other.ast()),
    {
        _Eq(self, other)
    }

    fn ne(self, other: T) -> (r: Box<E>)
        ensures
            r@ == node(BinOp::NotEqual, self@, other.ast()),
    {
        _Neq(self, other)
    }
}

/// Comparison by order, as an expression. The method names say which of
/// the two operands is the greater one where the comparison holds: `lt`
/// holds where `other` is less than `self`, and is written `self > other`.
pub trait PartialOrd<Rhs = Self> {
    /// `self > other`
    fn lt(self, other: Rhs) -> Box<E>;

    /// `self >= other`
    fn le(self, other: Rhs) -> Box<E>;

    /// `self < other`
    fn gt(self, other: Rhs) -> Box<E>;

    /// `self <= other`
    fn ge(self, other: Rhs) -> Box<E>;
}

impl<T: Operand> PartialOrd<T> for Box<E> {
    fn lt(self, other: T) -> (r: Box<E>)
        ensures
            r@ == node(BinOp::LessThan, self@, other.ast()),
    {
        _LTH(self, other)
    }

    fn le(self, other: T) -> (r: Box<E>)
        ensures
            r@ == node(BinOp::OrLess, self@, other.ast()),
    {
        _OLS(self, other)
    }

    fn gt(self, other: T) -> (r: Box<E>)
        ensures
            r@ == node(BinOp::MoreThan, self@, other.ast()),
    {
        _MTH(self, other)
    }

    fn ge(self, other: T) -> (r: Box<E>)
        ensures
            r@ == node(BinOp::OrMore, self@, other.ast()),
    {
        _OMR(self, other)
    }
}

impl<'a, T: Operand> PartialOrd<T> for &'a Box<E> {
    fn lt(self, other: T) -> (r: Box<E>)
        ensures
            r@ == node(BinOp::LessThan, self@, other.ast()),
    {
        _LTH(self, other)
    }

    fn le(self, other: T) -> (r: Box<E>)
        ensures
            r@ == node(BinOp::OrLess, self@, other.ast()),
    {
        _OLS(self, other)
    }

    fn gt(self, other: T) -> (r: Box<E>)
        ensures
            r@ == node(BinOp::MoreThan, self@, other.ast()),
    {
        _MTH(self, other)
    }

    fn ge(self, other: T) -> (r: Box<E>)
        ensures
            r@ == node(BinOp::OrMore, self@, other.ast()),
    {
        _OMR(self, other)
    }
}

/// Assignment, as a statement.
pub trait Subs<Rhs = Self> {
    /// The statement that assigns `other` to `self`.
    fn sst(&self, other: Rhs) -> Box<E>;
}

impl<T: Operand> Subs<T> for Box<E> {
    fn sst(&self, other: T) -> (r: Box<E>)
        ensures
            r@ == Ast::Assign(Box::new(self@), Box::new(other.ast())),
    {
        _Veq(self, other)
    }
}

/// The logical connectives, as expressions.
pub trait Logi<Rhs = Self> {
    /// `self && other`
    fn land(&self, other: Rhs) -> Box<E>;

    /// `self || other`
    fn lor(&self, other: Rhs) -> Box<E>;
}

impl<T: Operand> Logi<T> for Box<E> {
    fn land(&self, other: T) -> (r: Box<E>)
        ensures
            r@ == node(BinOp::LAnd, self@, other.ast()),
    {
        _LAnd(self, other)
    }

    fn lor(&self, other: T) -> (r: Box<E>)
        ensures
            r@ == node(BinOp::LOr, self@, other.ast()),
    {
        _LOr(self, other)
    }
}

/// Selecting one element of a memory, or one bit of a register.
pub trait Addr<Rs = Self> {
    /// `self[address]`
    fn addr(&self, address: Rs) -> Box<E>;
}

impl<T: Operand> Addr<T> for Box<E> {
    fn addr(&self, address: T) -> (r: Box<E>)
        ensures
            r@ == Ast::Index(Box::new(self@), Box::new(address.ast())),
    {
        Box::new(E::MEM(Box::new(clone_expr(self)), address.expr()))
    }
}

/// Selecting a range of bits.
pub trait MBit<Rs = Self> {
    /// `self[hbit:lbit]`
    fn range(&self, hbit: Rs, lbit: Rs) -> Box<E>;
}

impl<T: Operand> MBit<T> for Box<E> {
    fn range(&self, hbit: T, lbit: T) -> (r: Box<E>)
        ensures
            r@ == Ast::Slice(Box::new(self@), Box::new(hbit.ast()), Box::new(lbit.ast())),
    {
        Box::new(E::MBT(Box::new(clone_expr(self)), hbit.expr(), lbit.expr()))
    }
}

} // verus!
