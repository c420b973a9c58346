//! The element types of arrays, and what the kernels ask of them.
use crate::datatypes::{DataType, IntervalUnit};
use core::ops::{Add, Div, Mul, Neg, Sub};
use vstd::prelude::*;
use vstd::std_specs::ops::{AddSpec, DivSpec, MulSpec, NegSpec, SubSpec};

verus! {

/// A fixed-width type that the elements of an array can have.
///
/// The arithmetic of an element type is that of `core::ops`; this trait adds
/// what the kernels need beyond it.
pub trait NativeType: Copy {
    /// Whether arrays of logical type `data_type` store their elements as `Self`.
    spec fn spec_is_valid(data_type: DataType) -> bool;

    /// Whether `self` is the additive identity of the type.
    spec fn spec_is_zero(self) -> bool;

    /// The value that a kernel stores in a null slot which it has to fill.
    spec fn spec_default() -> Self;

    fn is_valid(data_type: &DataType) -> (r: bool)
        ensures
            r == Self::spec_is_valid(*data_type),
    ;

    fn is_zero(&self) -> (r: bool)
        ensures
            r == self.spec_is_zero(),
    ;

    fn default_value() -> (r: Self)
        ensures
            r == Self::spec_default(),
    ;

    fn is_equal(&self, other: &Self) -> (r: bool)
        ensures
            r == (*self == *other),
    ;
}

/// `num::Zero::is_zero` on `i8`, which compares its argument with `0`.
#[verifier::external_body]
fn zero_i8(x: i8) -> (r: bool)
    ensures
        r == (x == 0),
{
    num::Zero::is_zero(&x)
}

impl NativeType for i8 {
    open spec fn spec_is_valid(data_type: DataType) -> bool {
        match data_type {
            DataType::Int8 => true,
            _ => false,
        }
    }

    open spec fn spec_is_zero(self) -> bool {
        self == 0
    }

    open spec fn spec_default() -> Self {
        0
    }

    fn is_valid(data_type: &DataType) -> (r: bool) {
        match data_type {
            DataType::Int8 => true,
            _ => false,
        }
    }

    fn is_zero(&self) -> (r: bool) {
        zero_i8(*self)
    }

    fn default_value() -> (r: Self) {
        0
    }

    fn is_equal(&self, other: &Self) -> (r: bool) {
        *self == *other
    }
}

/// `num::Zero::is_zero` on `i16`, which compares its argument with `0`.
#[verifier::external_body]
fn zero_i16(x: i16) -> (r: bool)
    ensures
        r == (x == 0),
{
    num::Zero::is_zero(&x)
}

impl NativeType for i16 {
    open spec fn spec_is_valid(data_type: DataType) -> bool {
        match data_type {
            DataType::Int16 => true,
            _ => false,
        }
    }

    open spec fn spec_is_zero(self) -> bool {
        self == 0
    }

    open spec fn spec_default() -> Self {
        0
    }

    fn is_valid(data_type: &DataType) -> (r: bool) {
        match data_type {
            DataType::Int16 => true,
            _ => false,
        }
    }

    fn is_zero(&self) -> (r: bool) {
        zero_i16(*self)
    }

    fn default_value() -> (r: Self) {
        0
    }

    fn is_equal(&self, other: &Self) -> (r: bool) {
        *self == *other
    }
}

/// `num::Zero::is_zero` on `i32`, which compares its argument with `0`.
#[verifier::external_body]
fn zero_i32(x: i32) -> (r: bool)
    ensures
        r == (x == 0),
{
    num::Zero::is_zero(&x)
}

impl NativeType for i32 {
    open spec fn spec_is_valid(data_type: DataType) -> bool {
        match data_type {
            DataType::Int32 | DataType::Date32 | DataType::Time32(_) | DataType::Interval(IntervalUnit::YearMonth) => true,
            _ => false,
        }
    }

    open spec fn spec_is_zero(self) -> bool {
        self == 0
    }

    open spec fn spec_default() -> Self {
        0
    }

    fn is_valid(data_type: &DataType) -> (r: bool) {
        match data_type {
            DataType::Int32 | DataType::Date32 | DataType::Time32(_) | DataType::Interval(IntervalUnit::YearMonth) => true,
            _ => false,
        }
    }

    fn is_zero(&self) -> (r: bool) {
        zero_i32(*self)
    }

    fn default_value() -> (r: Self) {
        0
    }

    fn is_equal(&self, other: &Self) -> (r: bool) {
        *self == *other
    }
}

/// `num::Zero::is_zero` on `i64`, which compares its argument with `0`.
#[verifier::external_body]
fn zero_i64(x: i64) -> (r: bool)
    ensures
        r == (x == 0),
{
    num::Zero::is_zero(&x)
}

impl NativeType for i64 {
    open spec fn spec_is_valid(data_type: DataType) -> bool {
        match data_type {
            DataType::Int64 | DataType::Date64 | DataType::Time64(_) | DataType::Timestamp(_) | DataType::Duration(_) => true,
            _ => false,
        }
    }

    open spec fn spec_is_zero(self) -> bool {
        self == 0
    }

    open spec fn spec_default() -> Self {
        0
    }

    fn is_valid(data_type: &DataType) -> (r: bool) {
        match data_type {
            DataType::Int64 | DataType::Date64 | DataType::Time64(_) | DataType::Timestamp(_) | DataType::Duration(_) => true,
            _ => false,
        }
    }

    fn is_zero(&self) -> (r: bool) {
        zero_i64(*self)
    }

    fn default_value() -> (r: Self) {
        0
    }

    fn is_equal(&self, other: &Self) -> (r: bool) {
        *self == *other
    }
}

/// `num::Zero::is_zero` on `i128`, which compares its argument with `0`.
#[verifier::external_body]
fn zero_i128(x: i128) -> (r: bool)
    ensures
        r == (x == 0),
{
    num::Zero::is_zero(&x)
}

impl NativeType for i128 {
    open spec fn spec_is_valid(data_type: DataType) -> bool {
        match data_type {
            DataType::Decimal(_, _) => true,
            _ => false,
        }
    }

    open spec fn spec_is_zero(self) -> bool {
        self == 0
    }

    open spec fn spec_default() -> Self {
        0
    }

    fn is_valid(data_type: &DataType) -> (r: bool) {
        match data_type {
            DataType::Decimal(_, _) => true,
            _ => false,
        }
    }

    fn is_zero(&self) -> (r: bool) {
        zero_i128(*self)
    }

    fn default_value() -> (r: Self) {
        0
    }

    fn is_equal(&self, other: &Self) -> (r: bool) {
        *self == *other
    }
}

/// `num::Zero::is_zero` on `u8`, which compares its argument with `0`.
#[verifier::external_body]
fn zero_u8(x: u8) -> (r: bool)
    ensures
        r == (x == 0),
{
    num::Zero::is_zero(&x)
}

impl NativeType for u8 {
    open spec fn spec_is_valid(data_type: DataType) -> bool {
        match data_type {
            DataType::UInt8 => true,
            _ => false,
        }
    }

    open spec fn spec_is_zero(self) -> bool {
        self == 0
    }

    open spec fn spec_default() -> Self {
        0
    }

    fn is_valid(data_type: &DataType) -> (r: bool) {
        match data_type {
            DataType::UInt8 => true,
            _ => false,
        }
    }

    fn is_zero(&self) -> (r: bool) {
        zero_u8(*self)
    }

    fn default_value() -> (r: Self) {
        0
    }

    fn is_equal(&self, other: &Self) -> (r: bool) {
        *self == *other
    }
}

/// `num::Zero::is_zero` on `u16`, which compares its argument with `0`.
#[verifier::external_body]
fn zero_u16(x: u16) -> (r: bool)
    ensures
        r == (x == 0),
{
    num::Zero::is_zero(&x)
}

impl NativeType for u16 {
    open spec fn spec_is_valid(data_type: DataType) -> bool {
        match data_type {
            DataType::UInt16 => true,
            _ => false,
        }
    }

    open spec fn spec_is_zero(self) -> bool {
        self == 0
    }

    open spec fn spec_default() -> Self {
        0
    }

    fn is_valid(data_type: &DataType) -> (r: bool) {
        match data_type {
            DataType::UInt16 => true,
            _ => false,
        }
    }

    fn is_zero(&self) -> (r: bool) {
        zero_u16(*self)
    }

    fn default_value() -> (r: Self) {
        0
    }

    fn is_equal(&self, other: &Self) -> (r: bool) {
        *self == *other
    }
}

/// `num::Zero::is_zero` on `u32`, which compares its argument with `0`.
#[verifier::external_body]
fn zero_u32(x: u32) -> (r: bool)
    ensures
        r == (x == 0),
{
    num::Zero::is_zero(&x)
}

impl NativeType for u32 {
    open spec fn spec_is_valid(data_type: DataType) -> bool {
        match data_type {
            DataType::UInt32 => true,
            _ => false,
        }
    }

    open spec fn spec_is_zero(self) -> bool {
        self == 0
    }

    open spec fn spec_default() -> Self {
        0
    }

    fn is_valid(data_type: &DataType) -> (r: bool) {
        match data_type {
            DataType::UInt32 => true,
            _ => false,
        }
    }

    fn is_zero(&self) -> (r: bool) {
        zero_u32(*self)
    }

    fn default_value() -> (r: Self) {
        0
    }

    fn is_equal(&self, other: &Self) -> (r: bool) {
        *self == *other
    }
}

/// `num::Zero::is_zero` on `u64`, which compares its argument with `0`.
#[verifier::external_body]
fn zero_u64(x: u64) -> (r: bool)
    ensures
        r == (x == 0),
{
    num::Zero::is_zero(&x)
}

impl NativeType for u64 {
    open spec fn spec_is_valid(data_type: DataType) -> bool {
        match data_type {
            DataType::UInt64 => true,
            _ => false,
        }
    }

    open spec fn spec_is_zero(self) -> bool {
        self == 0
    }

    open spec fn spec_default() -> Self {
        0
    }

    fn is_valid(data_type: &DataType) -> (r: bool) {
        match data_type {
            DataType::UInt64 => true,
            _ => false,
        }
    }

    fn is_zero(&self) -> (r: bool) {
        zero_u64(*self)
    }

    fn default_value() -> (r: Self) {
        0
    }

    fn is_equal(&self, other: &Self) -> (r: bool) {
        *self == *other
    }
}

/// An element type that can be raised to a power of its own type.
pub trait Pow: NativeType {
    /// Whether `self` raised to `exponent` is a value of the type.
    spec fn pow_req(self, exponent: Self) -> bool;

    /// `self` raised to `exponent`.
    spec fn pow_spec(self, exponent: Self) -> Self;

    fn pow(self, exponent: Self) -> (r: Self)
        requires
            self.pow_req(exponent),
        ensures
            r == self.pow_spec(exponent),
    ;
}

/// `num::traits::Pow::pow` on `u8`, which hands both arguments to `u8::pow`:
/// `base` multiplied by itself `exponent` times, where that fits the type.
#[verifier::external_body]
fn pow_u8(base: u8, exponent: u8) -> (r: u8)
    requires
        vstd::arithmetic::power::pow(base as int, exponent as nat) <= u8::MAX,
    ensures
        r == vstd::arithmetic::power::pow(base as int, exponent as nat),
{
    num::traits::Pow::pow(base, exponent)
}

impl Pow for u8 {
    open spec fn pow_req(self, exponent: u8) -> bool {
        vstd::arithmetic::power::pow(self as int, exponent as nat) <= u8::MAX
    }

    open spec fn pow_spec(self, exponent: u8) -> u8 {
        vstd::arithmetic::power::pow(self as int, exponent as nat) as u8
    }

    fn pow(self, exponent: u8) -> (r: u8) {
        pow_u8(self, exponent)
    }
}

/// `num::traits::Pow::pow` on `u16`, which hands both arguments to `u16::pow`:
/// `base` multiplied by itself `exponent` times, where that fits the type.
#[verifier::external_body]
fn pow_u16(base: u16, exponent: u16) -> (r: u16)
    requires
        vstd::arithmetic::power::pow(base as int, exponent as nat) <= u16::MAX,
    ensures
        r == vstd::arithmetic::power::pow(base as int, exponent as nat),
{
    num::traits::Pow::pow(base, exponent)
}

impl Pow for u16 {
    open spec fn pow_req(self, exponent: u16) -> bool {
        vstd::arithmetic::power::pow(self as int, exponent as nat) <= u16::MAX
    }

    open spec fn pow_spec(self, exponent: u16) -> u16 {
        vstd::arithmetic::power::pow(self as int, exponent as nat) as u16
    }

    fn pow(self, exponent: u16) -> (r: u16) {
        pow_u16(self, exponent)
    }
}

/// `num::traits::Pow::pow` on `u32`, which hands both arguments to `u32::pow`:
/// `base` multiplied by itself `exponent` times, where that fits the type.
#[verifier::external_body]
fn pow_u32(base: u32, exponent: u32) -> (r: u32)
    requires
        vstd::arithmetic::power::pow(base as int, exponent as nat) <= u32::MAX,
    ensures
        r == vstd::arithmetic::power::pow(base as int, exponent as nat),
{
    num::traits::Pow::pow(base, exponent)
}

impl Pow for u32 {
    open spec fn pow_req(self, exponent: u32) -> bool {
        vstd::arithmetic::power::pow(self as int, exponent as nat) <= u32::MAX
    }

    open spec fn pow_spec(self, exponent: u32) -> u32 {
        vstd::arithmetic::power::pow(self as int, exponent as nat) as u32
    }

    fn pow(self, exponent: u32) -> (r: u32) {
        pow_u32(self, exponent)
    }
}

/// An element type whose values can index into an array.
pub trait Offset: NativeType {
    /// The position that a stored index denotes, where it denotes one: the
    /// index itself, if it is not negative and fits the platform's `usize`.
    spec fn spec_to_usize(self) -> Option<usize>;

    fn to_usize(&self) -> (r: Option<usize>)
        ensures
            r == self.spec_to_usize(),
    ;
}

impl Offset for i32 {
    open spec fn spec_to_usize(self) -> Option<usize> {
        if 0 <= self {
            Some(self as usize)
        } else {
            None
        }
    }

    fn to_usize(&self) -> (r: Option<usize>) {
        if *self >= 0 {
            Some(*self as usize)
        } else {
            None
        }
    }
}

impl Offset for i64 {
    open spec fn spec_to_usize(self) -> Option<usize> {
        if 0 <= self <= usize::MAX {
            Some(self as usize)
        } else {
            None
        }
    }

    fn to_usize(&self) -> (r: Option<usize>) {
        if *self >= 0 && *self as u64 <= usize::MAX as u64 {
            Some(*self as usize)
        } else {
            None
        }
    }
}

/// The quotient of two integers, rounded toward zero.
pub open spec fn quotient(a: int, b: int) -> int {
    if a >= 0 {
        a / b
    } else {
        -((-a) / b)
    }
}

/// A quotient is no further from zero than the dividend, and as far only
/// where the divisor is `1` or `-1`.
pub proof fn lemma_quotient_bound(a: int, b: int)
    requires
        b != 0,
    ensures
        a >= 0 ==> -a <= quotient(a, b) <= a,
        a <= 0 ==> a <= quotient(a, b) <= -a,
        a < 0 && b != -1 ==> quotient(a, b) < -a,
{
    let x = if a >= 0 {
        a
    } else {
        -a
    };
    assert(-x <= x / b <= x) by (nonlinear_arith)
        requires
            x >= 0,
            b != 0,
    ;
    assert(x > 0 && b != -1 ==> x / b > -x) by (nonlinear_arith)
        requires
            x >= 0,
            b != 0,
    ;
}

/// An element type that is an integer type: its values stand for integers, and
/// its operators are those of the integers within the range of the type.
pub trait Integer: NativeType + Add<Output = Self> + Sub<Output = Self> + Mul<Output = Self> + Div<
    Output = Self,
> {
    /// The integer that a value stands for.
    spec fn as_int(self) -> int;

    /// Whether an integer is in the range of the type.
    spec fn in_range(v: int) -> bool;

    /// A value is known by the integer it stands for, and zero is the default
    /// of the type.
    proof fn lemma_as_int(a: Self, b: Self)
        ensures
            Self::in_range(a.as_int()),
            a.as_int() == b.as_int() ==> a == b,
            a.spec_is_zero() <==> a.as_int() == 0,
            Self::spec_default().as_int() == 0,
    ;

    /// The sum, difference and product of two values are defined where that of
    /// their integers is in the range of the type, and stand for it.
    proof fn lemma_ring(a: Self, b: Self)
        ensures
            Self::obeys_add_spec(),
            Self::obeys_sub_spec(),
            Self::obeys_mul_spec(),
            a.add_req(b) <==> Self::in_range(a.as_int() + b.as_int()),
            a.add_req(b) ==> a.add_spec(b).as_int() == a.as_int() + b.as_int(),
            a.sub_req(b) <==> Self::in_range(a.as_int() - b.as_int()),
            a.sub_req(b) ==> a.sub_spec(b).as_int() == a.as_int() - b.as_int(),
            a.mul_req(b) <==> Self::in_range(a.as_int() * b.as_int()),
            a.mul_req(b) ==> a.mul_spec(b).as_int() == a.as_int() * b.as_int(),
    ;

    /// The quotient of two values is defined where the divisor is not zero and
    /// the quotient of their integers, rounded toward zero, is in the range of
    /// the type, and stands for it.
    proof fn lemma_quotient(a: Self, b: Self)
        ensures
            Self::obeys_div_spec(),
            a.div_req(b) <==> b.as_int() != 0 && Self::in_range(quotient(a.as_int(), b.as_int())),
            a.div_req(b) ==> a.div_spec(b).as_int() == quotient(a.as_int(), b.as_int()),
    ;
}

/// An integer type with negative values.
pub trait Signed: Integer + Neg<Output = Self> {
    /// The negation of a value is defined where that of its integer is in the
    /// range of the type, and stands for it.
    proof fn lemma_negation(a: Self)
        ensures
            Self::obeys_neg_spec(),
            a.neg_req() <==> Self::in_range(-a.as_int()),
            a.neg_req() ==> a.neg_spec().as_int() == -a.as_int(),
    ;
}

impl Integer for i8 {
    open spec fn as_int(self) -> int {
        self as int
    }

    open spec fn in_range(v: int) -> bool {
        i8::MIN <= v <= i8::MAX
    }

    proof fn lemma_as_int(a: Self, b: Self) {
    }

    proof fn lemma_ring(a: Self, b: Self) {
    }

    proof fn lemma_quotient(a: Self, b: Self) {
        if b != 0 {
            lemma_quotient_bound(a as int, b as int);
        }
    }
}

impl Integer for i16 {
    open spec fn as_int(self) -> int {
        self as int
    }

    open spec fn in_range(v: int) -> bool {
        i16::MIN <= v <= i16::MAX
    }

    proof fn lemma_as_int(a: Self, b: Self) {
    }

    proof fn lemma_ring(a: Self, b: Self) {
    }

    proof fn lemma_quotient(a: Self, b: Self) {
        if b != 0 {
            lemma_quotient_bound(a as int, b as int);
        }
    }
}

impl Integer for i32 {
    open spec fn as_int(self) -> int {
        self as int
    }

    open spec fn in_range(v: int) -> bool {
        i32::MIN <= v <= i32::MAX
    }

    proof fn lemma_as_int(a: Self, b: Self) {
    }

    proof fn lemma_ring(a: Self, b: Self) {
    }

    proof fn lemma_quotient(a: Self, b: Self) {
        if b != 0 {
            lemma_quotient_bound(a as int, b as int);
        }
    }
}

impl Integer for i64 {
    open spec fn as_int(self) -> int {
        self as int
    }

    open spec fn in_range(v: int) -> bool {
        i64::MIN <= v <= i64::MAX
    }

    proof fn lemma_as_int(a: Self, b: Self) {
    }

    proof fn lemma_ring(a: Self, b: Self) {
    }

    proof fn lemma_quotient(a: Self, b: Self) {
        if b != 0 {
            lemma_quotient_bound(a as int, b as int);
        }
    }
}

impl Integer for i128 {
    open spec fn as_int(self) -> int {
        self as int
    }

    open spec fn in_range(v: int) -> bool {
        i128::MIN <= v <= i128::MAX
    }

    proof fn lemma_as_int(a: Self, b: Self) {
    }

    proof fn lemma_ring(a: Self, b: Self) {
    }

    proof fn lemma_quotient(a: Self, b: Self) {
        if b != 0 {
            lemma_quotient_bound(a as int, b as int);
        }
    }
}

impl Integer for u8 {
    open spec fn as_int(self) -> int {
        self as int
    }

    open spec fn in_range(v: int) -> bool {
        u8::MIN <= v <= u8::MAX
    }

    proof fn lemma_as_int(a: Self, b: Self) {
    }

    proof fn lemma_ring(a: Self, b: Self) {
    }

    proof fn lemma_quotient(a: Self, b: Self) {
        if b != 0 {
            lemma_quotient_bound(a as int, b as int);
        }
    }
}

impl Integer for u16 {
    open spec fn as_int(self) -> int {
        self as int
    }

    open spec fn in_range(v: int) -> bool {
        u16::MIN <= v <= u16::MAX
    }

    proof fn lemma_as_int(a: Self, b: Self) {
    }

    proof fn lemma_ring(a: Self, b: Self) {
    }

    proof fn lemma_quotient(a: Self, b: Self) {
        if b != 0 {
            lemma_quotient_bound(a as int, b as int);
        }
    }
}

impl Integer for u32 {
    open spec fn as_int(self) -> int {
        self as int
    }

    open spec fn in_range(v: int) -> bool {
        u32::MIN <= v <= u32::MAX
    }

    proof fn lemma_as_int(a: Self, b: Self) {
    }

    proof fn lemma_ring(a: Self, b: Self) {
    }

    proof fn lemma_quotient(a: Self, b: Self) {
        if b != 0 {
            lemma_quotient_bound(a as int, b as int);
        }
    }
}

impl Integer for u64 {
    open spec fn as_int(self) -> int {
        self as int
    }

    open spec fn in_range(v: int) -> bool {
        u64::MIN <= v <= u64::MAX
    }

    proof fn lemma_as_int(a: Self, b: Self) {
    }

    proof fn lemma_ring(a: Self, b: Self) {
    }

    proof fn lemma_quotient(a: Self, b: Self) {
        if b != 0 {
            lemma_quotient_bound(a as int, b as int);
        }
    }
}

impl Signed for i8 {
    proof fn lemma_negation(a: Self) {
    }
}

impl Signed for i16 {
    proof fn lemma_negation(a: Self) {
    }
}

impl Signed for i32 {
    proof fn lemma_negation(a: Self) {
    }
}

impl Signed for i64 {
    proof fn lemma_negation(a: Self) {
    }
}

impl Signed for i128 {
    proof fn lemma_negation(a: Self) {
    }
}

} // verus!
