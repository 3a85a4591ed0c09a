//! The operator traits of the crate's own core library: each is what the compiler desugars
//! an operator to, once the trait is declared as the matching lang item.

use vstd::prelude::*;

verus! {

/// Addition, `a + b`.
pub trait Add<Rhs = Self> {
    type Output;

    fn add(self, rhs: Rhs) -> Self::Output;
}

/// Addition in place, `a += b`.
pub trait AddAssign<Rhs = Self> {
    fn add_assign(&mut self, rhs: Rhs);
}

/// Subtraction, `a - b`.
pub trait Sub<Rhs = Self> {
    type Output;

    fn sub(self, rhs: Rhs) -> Self::Output;
}

/// Subtraction in place, `a -= b`.
pub trait SubAssign<Rhs = Self> {
    fn sub_assign(&mut self, rhs: Rhs);
}

/// Multiplication, `a * b`.
pub trait Mul<Rhs = Self> {
    type Output;

    fn mul(self, rhs: Rhs) -> Self::Output;
}

/// Multiplication in place, `a *= b`.
pub trait MulAssign<Rhs = Self> {
    fn mul_assign(&mut self, rhs: Rhs);
}

/// Division, `a / b`.
pub trait Div<Rhs = Self> {
    type Output;

    fn div(self, rhs: Rhs) -> Self::Output;
}

/// Division in place, `a /= b`.
pub trait DivAssign<Rhs = Self> {
    fn div_assign(&mut self, rhs: Rhs);
}

/// Remainder, `a % b`.
pub trait Rem<Rhs = Self> {
    type Output;

    fn rem(self, rhs: Rhs) -> Self::Output;
}

/// Remainder in place, `a %= b`.
pub trait RemAssign<Rhs = Self> {
    fn rem_assign(&mut self, rhs: Rhs);
}

/// Bitwise and, `a & b`.
pub trait BitAnd<Rhs = Self> {
    type Output;

    fn bitand(self, rhs: Rhs) -> Self::Output;
}

/// Bitwise and in place, `a &= b`.
pub trait BitAndAssign<Rhs = Self> {
    fn bitand_assign(&mut self, rhs: Rhs);
}

/// Bitwise or, `a | b`.
pub trait BitOr<Rhs = Self> {
    type Output;

    fn bitor(self, rhs: Rhs) -> Self::Output;
}

/// Bitwise or in place, `a |= b`.
pub trait BitOrAssign<Rhs = Self> {
    fn bitor_assign(&mut self, rhs: Rhs);
}

/// Bitwise exclusive or, `a ^ b`.
pub trait BitXor<Rhs = Self> {
    type Output;

    fn bitxor(self, rhs: Rhs) -> Self::Output;
}

/// Bitwise exclusive or in place, `a ^= b`.
pub trait BitXorAssign<Rhs = Self> {
    fn bitxor_assign(&mut self, rhs: Rhs);
}

/// Left shift, `a << b`.
pub trait Shl<Rhs = Self> {
    type Output;

    fn shl(self, rhs: Rhs) -> Self::Output;
}

/// Left shift in place, `a <<= b`.
pub trait ShlAssign<Rhs = Self> {
    fn shl_assign(&mut self, rhs: Rhs);
}

/// Right shift, `a >> b`.
pub trait Shr<Rhs = Self> {
    type Output;

    fn shr(self, rhs: Rhs) -> Self::Output;
}

/// Right shift in place, `a >>= b`.
pub trait ShrAssign<Rhs = Self> {
    fn shr_assign(&mut self, rhs: Rhs);
}

/// Negation, `-a`.
pub trait Neg {
    type Output;

    fn neg(self) -> Self::Output;
}

/// Logical or bitwise negation, `!a`.
pub trait Not {
    type Output;

    fn not(self) -> Self::Output;
}

/// Indexing, `a[i]`.
pub trait Index<Idx> {
    type Output;

    fn index(&self, index: Idx) -> &Self::Output;
}

/// Mutable indexing, `a[i] = v`.
pub trait IndexMut<Idx>: Index<Idx> {
    fn index_mut(&mut self, index: Idx) -> &mut Self::Output;
}

/// Dereferencing, `*a`.
pub trait Deref {
    type Target;

    fn deref(&self) -> &Self::Target;
}

/// Mutable dereferencing, `*a = v`.
pub trait DerefMut: Deref {
    fn deref_mut(&mut self) -> &mut Self::Target;
}

/// Types that can stand as the receiver of a method.
pub trait Receiver {}

} // verus!
