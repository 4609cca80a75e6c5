//! The scalar capability that coordinates must have: an order, an addition and a unit step.
//!
//! Contracts speak of a scalar through its integer position. The scalars of a type stand in
//! one-to-one correspondence with the representable positions, which form an interval.

use vstd::prelude::*;

verus! {

/// A coordinate scalar: a copyable value that sits at an integer position, can be compared with
/// another, added to another, and has a unit step.
pub trait PointRangeIteratorPrimitive: Copy + Sized {
    /// The integer position at which the scalar sits.
    spec fn position(self) -> int;

    /// Whether some scalar of this type sits at position `v`.
    spec fn representable(v: int) -> bool;

    /// The scalar that sits at position `v`, where `v` is representable.
    spec fn at(v: int) -> Self;

    /// Every scalar sits at a representable position, and is the scalar at that position.
    proof fn lemma_at_position(s: Self)
        ensures
            Self::representable(s.position()),
            Self::at(s.position()) == s,
    ;

    /// The scalar at a representable position sits there.
    proof fn lemma_position_at(v: int)
        requires
            Self::representable(v),
        ensures
            Self::at(v).position() == v,
    ;

    /// The representable positions have no gaps.
    proof fn lemma_representable_between(lo: Self, hi: Self, v: int)
        requires
            lo.position() <= v <= hi.position(),
        ensures
            Self::representable(v),
    ;

    /// The unit step.
    fn one() -> (unit: Self)
        ensures
            unit.position() == 1,
    ;

    /// Strict order of two scalars.
    fn less_than(&self, other: &Self) -> (below: bool)
        ensures
            below == (self.position() < other.position()),
    ;

    /// Sum of two scalars, where the type can hold it.
    fn plus(self, rhs: Self) -> (sum: Self)
        requires
            Self::representable(self.position() + rhs.position()),
        ensures
            sum.position() == self.position() + rhs.position(),
            sum == Self::at(self.position() + rhs.position()),
    ;
}

/// The unit step of `i8`, as `euclid::num::One::one` gives it: the number 1.
#[verifier::external_body]
fn unit_i8() -> (unit: i8)
    ensures
        unit == 1,
{
    euclid::num::One::one()
}

impl PointRangeIteratorPrimitive for i8 {
    open spec fn position(self) -> int {
        self as int
    }

    open spec fn representable(v: int) -> bool {
        i8::MIN <= v <= i8::MAX
    }

    open spec fn at(v: int) -> Self {
        v as i8
    }

    proof fn lemma_at_position(s: Self) {
    }

    proof fn lemma_position_at(v: int) {
    }

    proof fn lemma_representable_between(lo: Self, hi: Self, v: int) {
    }

    fn one() -> (unit: Self) {
        unit_i8()
    }

    fn less_than(&self, other: &Self) -> (below: bool) {
        *self < *other
    }

    fn plus(self, rhs: Self) -> (sum: Self) {
        self + rhs
    }
}

/// The unit step of `i16`, as `euclid::num::One::one` gives it: the number 1.
#[verifier::external_body]
fn unit_i16() -> (unit: i16)
    ensures
        unit == 1,
{
    euclid::num::One::one()
}

impl PointRangeIteratorPrimitive for i16 {
    open spec fn position(self) -> int {
        self as int
    }

    open spec fn representable(v: int) -> bool {
        i16::MIN <= v <= i16::MAX
    }

    open spec fn at(v: int) -> Self {
        v as i16
    }

    proof fn lemma_at_position(s: Self) {
    }

    proof fn lemma_position_at(v: int) {
    }

    proof fn lemma_representable_between(lo: Self, hi: Self, v: int) {
    }

    fn one() -> (unit: Self) {
        unit_i16()
    }

    fn less_than(&self, other: &Self) -> (below: bool) {
        *self < *other
    }

    fn plus(self, rhs: Self) -> (sum: Self) {
        self + rhs
    }
}

/// The unit step of `i32`, as `euclid::num::One::one` gives it: the number 1.
#[verifier::external_body]
fn unit_i32() -> (unit: i32)
    ensures
        unit == 1,
{
    euclid::num::One::one()
}

impl PointRangeIteratorPrimitive for i32 {
    open spec fn position(self) -> int {
        self as int
    }

    open spec fn representable(v: int) -> bool {
        i32::MIN <= v <= i32::MAX
    }

    open spec fn at(v: int) -> Self {
        v as i32
    }

    proof fn lemma_at_position(s: Self) {
    }

    proof fn lemma_position_at(v: int) {
    }

    proof fn lemma_representable_between(lo: Self, hi: Self, v: int) {
    }

    fn one() -> (unit: Self) {
        unit_i32()
    }

    fn less_than(&self, other: &Self) -> (below: bool) {
        *self < *other
    }

    fn plus(self, rhs: Self) -> (sum: Self) {
        self + rhs
    }
}

/// The unit step of `i64`, as `euclid::num::One::one` gives it: the number 1.
#[verifier::external_body]
fn unit_i64() -> (unit: i64)
    ensures
        unit == 1,
{
    euclid::num::One::one()
}

impl PointRangeIteratorPrimitive for i64 {
    open spec fn position(self) -> int {
        self as int
    }

    open spec fn representable(v: int) -> bool {
        i64::MIN <= v <= i64::MAX
    }

    open spec fn at(v: int) -> Self {
        v as i64
    }

    proof fn lemma_at_position(s: Self) {
    }

    proof fn lemma_position_at(v: int) {
    }

    proof fn lemma_representable_between(lo: Self, hi: Self, v: int) {
    }

    fn one() -> (unit: Self) {
        unit_i64()
    }

    fn less_than(&self, other: &Self) -> (below: bool) {
        *self < *other
    }

    fn plus(self, rhs: Self) -> (sum: Self) {
        self + rhs
    }
}

/// The unit step of `isize`, as `euclid::num::One::one` gives it: the number 1.
#[verifier::external_body]
fn unit_isize() -> (unit: isize)
    ensures
        unit == 1,
{
    euclid::num::One::one()
}

impl PointRangeIteratorPrimitive for isize {
    open spec fn position(self) -> int {
        self as int
    }

    open spec fn representable(v: int) -> bool {
        isize::MIN <= v <= isize::MAX
    }

    open spec fn at(v: int) -> Self {
        v as isize
    }

    proof fn lemma_at_position(s: Self) {
    }

    proof fn lemma_position_at(v: int) {
    }

    proof fn lemma_representable_between(lo: Self, hi: Self, v: int) {
    }

    fn one() -> (unit: Self) {
        unit_isize()
    }

    fn less_than(&self, other: &Self) -> (below: bool) {
        *self < *other
    }

    fn plus(self, rhs: Self) -> (sum: Self) {
        self + rhs
    }
}

/// The unit step of `u8`, as `euclid::num::One::one` gives it: the number 1.
#[verifier::external_body]
fn unit_u8() -> (unit: u8)
    ensures
        unit == 1,
{
    euclid::num::One::one()
}

impl PointRangeIteratorPrimitive for u8 {
    open spec fn position(self) -> int {
        self as int
    }

    open spec fn representable(v: int) -> bool {
        u8::MIN <= v <= u8::MAX
    }

    open spec fn at(v: int) -> Self {
        v as u8
    }

    proof fn lemma_at_position(s: Self) {
    }

    proof fn lemma_position_at(v: int) {
    }

    proof fn lemma_representable_between(lo: Self, hi: Self, v: int) {
    }

    fn one() -> (unit: Self) {
        unit_u8()
    }

    fn less_than(&self, other: &Self) -> (below: bool) {
        *self < *other
    }

    fn plus(self, rhs: Self) -> (sum: Self) {
        self + rhs
    }
}

/// The unit step of `u16`, as `euclid::num::One::one` gives it: the number 1.
#[verifier::external_body]
fn unit_u16() -> (unit: u16)
    ensures
        unit == 1,
{
    euclid::num::One::one()
}

impl PointRangeIteratorPrimitive for u16 {
    open spec fn position(self) -> int {
        self as int
    }

    open spec fn representable(v: int) -> bool {
        u16::MIN <= v <= u16::MAX
    }

    open spec fn at(v: int) -> Self {
        v as u16
    }

    proof fn lemma_at_position(s: Self) {
    }

    proof fn lemma_position_at(v: int) {
    }

    proof fn lemma_representable_between(lo: Self, hi: Self, v: int) {
    }

    fn one() -> (unit: Self) {
        unit_u16()
    }

    fn less_than(&self, other: &Self) -> (below: bool) {
        *self < *other
    }

    fn plus(self, rhs: Self) -> (sum: Self) {
        self + rhs
    }
}

/// The unit step of `u32`, as `euclid::num::One::one` gives it: the number 1.
#[verifier::external_body]
fn unit_u32() -> (unit: u32)
    ensures
        unit == 1,
{
    euclid::num::One::one()
}

impl PointRangeIteratorPrimitive for u32 {
    open spec fn position(self) -> int {
        self as int
    }

    open spec fn representable(v: int) -> bool {
        u32::MIN <= v <= u32::MAX
    }

    open spec fn at(v: int) -> Self {
        v as u32
    }

    proof fn lemma_at_position(s: Self) {
    }

    proof fn lemma_position_at(v: int) {
    }

    proof fn lemma_representable_between(lo: Self, hi: Self, v: int) {
    }

    fn one() -> (unit: Self) {
        unit_u32()
    }

    fn less_than(&self, other: &Self) -> (below: bool) {
        *self < *other
    }

    fn plus(self, rhs: Self) -> (sum: Self) {
        self + rhs
    }
}

/// The unit step of `u64`, as `euclid::num::One::one` gives it: the number 1.
#[verifier::external_body]
fn unit_u64() -> (unit: u64)
    ensures
        unit == 1,
{
    euclid::num::One::one()
}

impl PointRangeIteratorPrimitive for u64 {
    open spec fn position(self) -> int {
        self as int
    }

    open spec fn representable(v: int) -> bool {
        u64::MIN <= v <= u64::MAX
    }

    open spec fn at(v: int) -> Self {
        v as u64
    }

    proof fn lemma_at_position(s: Self) {
    }

    proof fn lemma_position_at(v: int) {
    }

    proof fn lemma_representable_between(lo: Self, hi: Self, v: int) {
    }

    fn one() -> (unit: Self) {
        unit_u64()
    }

    fn less_than(&self, other: &Self) -> (below: bool) {
        *self < *other
    }

    fn plus(self, rhs: Self) -> (sum: Self) {
        self + rhs
    }
}

/// The unit step of `usize`, as `euclid::num::One::one` gives it: the number 1.
#[verifier::external_body]
fn unit_usize() -> (unit: usize)
    ensures
        unit == 1,
{
    euclid::num::One::one()
}

impl PointRangeIteratorPrimitive for usize {
    open spec fn position(self) -> int {
        self as int
    }

    open spec fn representable(v: int) -> bool {
        usize::MIN <= v <= usize::MAX
    }

    open spec fn at(v: int) -> Self {
        v as usize
    }

    proof fn lemma_at_position(s: Self) {
    }

    proof fn lemma_position_at(v: int) {
    }

    proof fn lemma_representable_between(lo: Self, hi: Self, v: int) {
    }

    fn one() -> (unit: Self) {
        unit_usize()
    }

    fn less_than(&self, other: &Self) -> (below: bool) {
        *self < *other
    }

    fn plus(self, rhs: Self) -> (sum: Self) {
        self + rhs
    }
}

} // verus!
