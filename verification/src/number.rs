//! The number types that a vector can hold.

use core::ops::{Add, Div, Mul, Sub};
use vstd::prelude::*;
use vstd::std_specs::ops::{AddSpec, DivSpec, MulSpec, SubSpec};

verus! {

/// Division of integers that rounds toward zero, as the machine integer
/// types divide. Left open for a zero divisor.
pub open spec fn quotient(a: int, b: int) -> int {
    if a >= 0 {
        a / b
    } else {
        -((-a) / b)
    }
}

/// How far a quotient can lie from zero: no further than the dividend,
/// and nearer unless the divisor is 1 or -1.
pub proof fn lemma_quotient_bounds(a: int, b: int)
    requires
        b != 0,
    ensures
        a >= 0 ==> -a <= quotient(a, b) <= a,
        a < 0 ==> a <= quotient(a, b) <= -a,
        b == -1 ==> quotient(a, b) == -a,
        a < 0 && b != -1 ==> quotient(a, b) < -a,
{
    let x = if a >= 0 { a } else { -a };
    assert(b > 0 ==> 0 <= x / b <= x) by (nonlinear_arith)
        requires
            x >= 0,
    ;
    assert(b < 0 ==> -x <= x / b <= 0) by (nonlinear_arith)
        requires
            x >= 0,
    ;
    assert(b <= -2 && x > 0 ==> x / b > -x) by (nonlinear_arith);
}

/// A number type whose values stand for mathematical integers and whose
/// operators compute exactly on them, as long as the result can be held.
pub trait Number: Copy + Add<Output = Self> + Sub<Output = Self> + Mul<Output = Self> + Div<
    Output = Self,
> {
    /// The integer that a value stands for.
    spec fn value(self) -> int;

    /// Whether some value of the type stands for `i`.
    spec fn fits(i: int) -> bool;

    /// The additive identity of the type.
    fn zero() -> (z: Self)
        ensures
            z.value() == 0,
    ;

    /// Every value stands for an integer that fits, and for one only.
    proof fn lemma_value(a: Self, b: Self)
        ensures
            Self::fits(a.value()),
            a.value() == b.value() ==> a == b,
    ;

    /// `+`, `-`, `*` and `/` may be applied exactly where the exact result
    /// fits (and the divisor is not zero), and then they return it.
    proof fn lemma_operators(a: Self, b: Self)
        ensures
            Self::obeys_add_spec(),
            Self::obeys_sub_spec(),
            Self::obeys_mul_spec(),
            Self::obeys_div_spec(),
            a.add_req(b) <==> Self::fits(a.value() + b.value()),
            a.add_req(b) ==> a.add_spec(b).value() == a.value() + b.value(),
            a.sub_req(b) <==> Self::fits(a.value() - b.value()),
            a.sub_req(b) ==> a.sub_spec(b).value() == a.value() - b.value(),
            a.mul_req(b) <==> Self::fits(a.value() * b.value()),
            a.mul_req(b) ==> a.mul_spec(b).value() == a.value() * b.value(),
            a.div_req(b) <==> b.value() != 0 && Self::fits(quotient(a.value(), b.value())),
            a.div_req(b) ==> a.div_spec(b).value() == quotient(a.value(), b.value()),
    ;
}

/// Calls `num_traits::Zero::zero` for `u8`. Trusted: it returns 0, the
/// literal that the crate's impl for this type is written with.
#[verifier::external_body]
fn zero_u8() -> (z: u8)
    ensures
        z == 0,
{
    <u8 as num_traits::Zero>::zero()
}

/// Calls `num_traits::Zero::zero` for `u16`. Trusted: it returns 0, the
/// literal that the crate's impl for this type is written with.
#[verifier::external_body]
fn zero_u16() -> (z: u16)
    ensures
        z == 0,
{
    <u16 as num_traits::Zero>::zero()
}

/// Calls `num_traits::Zero::zero` for `u32`. Trusted: it returns 0, the
/// literal that the crate's impl for this type is written with.
#[verifier::external_body]
fn zero_u32() -> (z: u32)
    ensures
        z == 0,
{
    <u32 as num_traits::Zero>::zero()
}

/// Calls `num_traits::Zero::zero` for `u64`. Trusted: it returns 0, the
/// literal that the crate's impl for this type is written with.
#[verifier::external_body]
fn zero_u64() -> (z: u64)
    ensures
        z == 0,
{
    <u64 as num_traits::Zero>::zero()
}

/// Calls `num_traits::Zero::zero` for `usize`. Trusted: it returns 0, the
/// literal that the crate's impl for this type is written with.
#[verifier::external_body]
fn zero_usize() -> (z: usize)
    ensures
        z == 0,
{
    <usize as num_traits::Zero>::zero()
}

/// Calls `num_traits::Zero::zero` for `i8`. Trusted: it returns 0, the
/// literal that the crate's impl for this type is written with.
#[verifier::external_body]
fn zero_i8() -> (z: i8)
    ensures
        z == 0,
{
    <i8 as num_traits::Zero>::zero()
}

/// Calls `num_traits::Zero::zero` for `i16`. Trusted: it returns 0, the
/// literal that the crate's impl for this type is written with.
#[verifier::external_body]
fn zero_i16() -> (z: i16)
    ensures
        z == 0,
{
    <i16 as num_traits::Zero>::zero()
}

/// Calls `num_traits::Zero::zero` for `i32`. Trusted: it returns 0, the
/// literal that the crate's impl for this type is written with.
#[verifier::external_body]
fn zero_i32() -> (z: i32)
    ensures
        z == 0,
{
    <i32 as num_traits::Zero>::zero()
}

/// Calls `num_traits::Zero::zero` for `i64`. Trusted: it returns 0, the
/// literal that the crate's impl for this type is written with.
#[verifier::external_body]
fn zero_i64() -> (z: i64)
    ensures
        z == 0,
{
    <i64 as num_traits::Zero>::zero()
}

impl Number for u8 {
    open spec fn value(self) -> int {
        self as int
    }

    open spec fn fits(i: int) -> bool {
        u8::MIN <= i <= u8::MAX
    }

    fn zero() -> (z: u8) {
        zero_u8()
    }

    proof fn lemma_value(a: u8, b: u8) {
    }

    proof fn lemma_operators(a: u8, b: u8) {
    }
}

impl Number for u16 {
    open spec fn value(self) -> int {
        self as int
    }

    open spec fn fits(i: int) -> bool {
        u16::MIN <= i <= u16::MAX
    }

    fn zero() -> (z: u16) {
        zero_u16()
    }

    proof fn lemma_value(a: u16, b: u16) {
    }

    proof fn lemma_operators(a: u16, b: u16) {
    }
}

impl Number for u32 {
    open spec fn value(self) -> int {
        self as int
    }

    open spec fn fits(i: int) -> bool {
        u32::MIN <= i <= u32::MAX
    }

    fn zero() -> (z: u32) {
        zero_u32()
    }

    proof fn lemma_value(a: u32, b: u32) {
    }

    proof fn lemma_operators(a: u32, b: u32) {
    }
}

impl Number for u64 {
    open spec fn value(self) -> int {
        self as int
    }

    open spec fn fits(i: int) -> bool {
        u64::MIN <= i <= u64::MAX
    }

    fn zero() -> (z: u64) {
        zero_u64()
    }

    proof fn lemma_value(a: u64, b: u64) {
    }

    proof fn lemma_operators(a: u64, b: u64) {
    }
}

impl Number for usize {
    open spec fn value(self) -> int {
        self as int
    }

    open spec fn fits(i: int) -> bool {
        usize::MIN <= i <= usize::MAX
    }

    fn zero() -> (z: usize) {
        zero_usize()
    }

    proof fn lemma_value(a: usize, b: usize) {
    }

    proof fn lemma_operators(a: usize, b: usize) {
    }
}

impl Number for i8 {
    open spec fn value(self) -> int {
        self as int
    }

    open spec fn fits(i: int) -> bool {
        i8::MIN <= i <= i8::MAX
    }

    fn zero() -> (z: i8) {
        zero_i8()
    }

    proof fn lemma_value(a: i8, b: i8) {
    }

    proof fn lemma_operators(a: i8, b: i8) {
        if b != 0 {
            lemma_quotient_bounds(a as int, b as int);
        }
    }
}

impl Number for i16 {
    open spec fn value(self) -> int {
        self as int
    }

    open spec fn fits(i: int) -> bool {
        i16::MIN <= i <= i16::MAX
    }

    fn zero() -> (z: i16) {
        zero_i16()
    }

    proof fn lemma_value(a: i16, b: i16) {
    }

    proof fn lemma_operators(a: i16, b: i16) {
        if b != 0 {
            lemma_quotient_bounds(a as int, b as int);
        }
    }
}

impl Number for i32 {
    open spec fn value(self) -> int {
        self as int
    }

    open spec fn fits(i: int) -> bool {
        i32::MIN <= i <= i32::MAX
    }

    fn zero() -> (z: i32) {
        zero_i32()
    }

    proof fn lemma_value(a: i32, b: i32) {
    }

    proof fn lemma_operators(a: i32, b: i32) {
        if b != 0 {
            lemma_quotient_bounds(a as int, b as int);
        }
    }
}

impl Number for i64 {
    open spec fn value(self) -> int {
        self as int
    }

    open spec fn fits(i: int) -> bool {
        i64::MIN <= i <= i64::MAX
    }

    fn zero() -> (z: i64) {
        zero_i64()
    }

    proof fn lemma_value(a: i64, b: i64) {
    }

    proof fn lemma_operators(a: i64, b: i64) {
        if b != 0 {
            lemma_quotient_bounds(a as int, b as int);
        }
    }
}

} // verus!
