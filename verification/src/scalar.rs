use vstd::prelude::*;
use core::primitive::f32 as Binary32;
use core::primitive::f64 as Binary64;

verus! {

/// A single precision IEEE-754 value, carried as its bit pattern.
/// Two values are `==` exactly when their bit patterns agree; the
/// IEEE equality (where negative zero equals positive zero and a NaN
/// equals nothing) is `spec_single_eq` / `ScalarElem::eq_spec`.
#[derive(Copy, Clone, PartialEq, Eq, Structural, Debug)]
pub struct F32Bits {
    pub bits: u32,
}

/// A double precision IEEE-754 value, carried as its bit pattern.
#[derive(Copy, Clone, PartialEq, Eq, Structural, Debug)]
pub struct F64Bits {
    pub bits: u64,
}

/// Bit pattern of single precision 1.0.
pub const F32_ONE_BITS: u32 = 0x3F800000;

/// Bit pattern of double precision 1.0.
pub const F64_ONE_BITS: u64 = 0x3FF0000000000000;

/// Bit pattern of the canonical single precision quiet NaN the
/// engine folds every NaN result to.
pub const F32_QNAN_BITS: u32 = 0x7FC00000;

/// Bit pattern of the canonical double precision quiet NaN.
pub const F64_QNAN_BITS: u64 = 0x7FF8000000000000;

/// Whether a single precision bit pattern encodes a NaN: exponent
/// all ones and a non-zero mantissa.
pub open spec fn spec_is_nan32(bits: u32) -> bool {
    bits & 0x7F800000u32 == 0x7F800000u32 && bits & 0x007FFFFFu32 != 0u32
}

/// Whether a double precision bit pattern encodes a NaN.
pub open spec fn spec_is_nan64(bits: u64) -> bool {
    bits & 0x7FF0000000000000u64 == 0x7FF0000000000000u64 && bits & 0x000FFFFFFFFFFFFFu64
        != 0u64
}

pub(crate) fn is_nan32(bits: u32) -> (r: bool)
    ensures
        r == spec_is_nan32(bits),
{
    bits & 0x7F800000u32 == 0x7F800000u32 && bits & 0x007FFFFFu32 != 0u32
}

pub(crate) fn is_nan64(bits: u64) -> (r: bool)
    ensures
        r == spec_is_nan64(bits),
{
    bits & 0x7FF0000000000000u64 == 0x7FF0000000000000u64 && bits & 0x000FFFFFFFFFFFFFu64
        != 0u64
}

// The scalar floating point operations below are IEEE-754 arithmetic
// in the default rounding mode. A result that is not NaN is a pure
// function of the operand bit patterns, but cannot be stated in
// integer arithmetic, so each operation's result is given a name
// here, and the trusted wrapper that performs it ties its result to
// the name. Whether a result is NaN is likewise determined by the
// operands, but a NaN result's sign and payload bits are documented
// as unspecified; the trusted contracts therefore fix the exact bits
// only where the result is not NaN, and the verified layer above
// replaces every NaN result by the canonical quiet NaN, which makes
// the engine's arithmetic a total function of the bits.

pub uninterp spec fn single_add_bits(a: u32, b: u32) -> u32;

pub uninterp spec fn single_sub_bits(a: u32, b: u32) -> u32;

pub uninterp spec fn single_mul_bits(a: u32, b: u32) -> u32;

pub uninterp spec fn single_div_bits(a: u32, b: u32) -> u32;

pub uninterp spec fn single_eq_bits(a: u32, b: u32) -> bool;

pub uninterp spec fn single_lt_bits(a: u32, b: u32) -> bool;

pub uninterp spec fn single_le_bits(a: u32, b: u32) -> bool;

pub uninterp spec fn single_of_i32(a: i32) -> u32;

pub uninterp spec fn single_of_u32(a: u32) -> u32;

pub uninterp spec fn single_of_double(a: u64) -> u32;

pub uninterp spec fn i32_of_single(a: u32) -> i32;

pub uninterp spec fn u32_of_single(a: u32) -> u32;

pub uninterp spec fn double_add_bits(a: u64, b: u64) -> u64;

pub uninterp spec fn double_sub_bits(a: u64, b: u64) -> u64;

pub uninterp spec fn double_mul_bits(a: u64, b: u64) -> u64;

pub uninterp spec fn double_div_bits(a: u64, b: u64) -> u64;

pub uninterp spec fn double_eq_bits(a: u64, b: u64) -> bool;

pub uninterp spec fn double_lt_bits(a: u64, b: u64) -> bool;

pub uninterp spec fn double_le_bits(a: u64, b: u64) -> bool;

pub uninterp spec fn double_of_i32(a: i32) -> u64;

pub uninterp spec fn double_of_u32(a: u32) -> u64;

pub uninterp spec fn double_of_single(a: u32) -> u64;

pub uninterp spec fn i32_of_double(a: u64) -> i32;

pub uninterp spec fn u32_of_double(a: u64) -> u32;

/// Relies on single precision `+` of core (IEEE-754 addition).
/// Whether the result is NaN is determined by the operands; a NaN
/// result's payload is not, so the exact bits are fixed only where
/// the result is not NaN.
#[verifier::external_body]
fn single_add_raw(a: F32Bits, b: F32Bits) -> (r: F32Bits)
    ensures
        spec_is_nan32(r.bits) == spec_is_nan32(single_add_bits(a.bits, b.bits)),
        !spec_is_nan32(r.bits) ==> r.bits == single_add_bits(a.bits, b.bits),
{
    F32Bits { bits: (Binary32::from_bits(a.bits) + Binary32::from_bits(b.bits)).to_bits() }
}

/// The engine's single precision addition: the IEEE result with a NaN
/// replaced by the canonical quiet NaN.
pub open spec fn spec_single_add(a: u32, b: u32) -> u32 {
    if spec_is_nan32(single_add_bits(a, b)) {
        F32_QNAN_BITS
    } else {
        single_add_bits(a, b)
    }
}

pub(crate) fn single_add(a: F32Bits, b: F32Bits) -> (r: F32Bits)
    ensures
        r.bits == spec_single_add(a.bits, b.bits),
{
    let x = single_add_raw(a, b);
    if is_nan32(x.bits) {
        F32Bits { bits: F32_QNAN_BITS }
    } else {
        x
    }
}

/// Relies on single precision `-` of core (IEEE-754 subtraction).
/// Whether the result is NaN is determined by the operands; a NaN
/// result's payload is not, so the exact bits are fixed only where
/// the result is not NaN.
#[verifier::external_body]
fn single_sub_raw(a: F32Bits, b: F32Bits) -> (r: F32Bits)
    ensures
        spec_is_nan32(r.bits) == spec_is_nan32(single_sub_bits(a.bits, b.bits)),
        !spec_is_nan32(r.bits) ==> r.bits == single_sub_bits(a.bits, b.bits),
{
    F32Bits { bits: (Binary32::from_bits(a.bits) - Binary32::from_bits(b.bits)).to_bits() }
}

/// The engine's single precision subtraction: the IEEE result with a NaN
/// replaced by the canonical quiet NaN.
pub open spec fn spec_single_sub(a: u32, b: u32) -> u32 {
    if spec_is_nan32(single_sub_bits(a, b)) {
        F32_QNAN_BITS
    } else {
        single_sub_bits(a, b)
    }
}

pub(crate) fn single_sub(a: F32Bits, b: F32Bits) -> (r: F32Bits)
    ensures
        r.bits == spec_single_sub(a.bits, b.bits),
{
    let x = single_sub_raw(a, b);
    if is_nan32(x.bits) {
        F32Bits { bits: F32_QNAN_BITS }
    } else {
        x
    }
}

/// Relies on single precision `*` of core (IEEE-754 multiplication).
/// Whether the result is NaN is determined by the operands; a NaN
/// result's payload is not, so the exact bits are fixed only where
/// the result is not NaN.
#[verifier::external_body]
fn single_mul_raw(a: F32Bits, b: F32Bits) -> (r: F32Bits)
    ensures
        spec_is_nan32(r.bits) == spec_is_nan32(single_mul_bits(a.bits, b.bits)),
        !spec_is_nan32(r.bits) ==> r.bits == single_mul_bits(a.bits, b.bits),
{
    F32Bits { bits: (Binary32::from_bits(a.bits) * Binary32::from_bits(b.bits)).to_bits() }
}

/// The engine's single precision multiplication: the IEEE result with a NaN
/// replaced by the canonical quiet NaN.
pub open spec fn spec_single_mul(a: u32, b: u32) -> u32 {
    if spec_is_nan32(single_mul_bits(a, b)) {
        F32_QNAN_BITS
    } else {
        single_mul_bits(a, b)
    }
}

pub(crate) fn single_mul(a: F32Bits, b: F32Bits) -> (r: F32Bits)
    ensures
        r.bits == spec_single_mul(a.bits, b.bits),
{
    let x = single_mul_raw(a, b);
    if is_nan32(x.bits) {
        F32Bits { bits: F32_QNAN_BITS }
    } else {
        x
    }
}

/// Relies on single precision `/` of core (IEEE-754 division).
/// Whether the result is NaN is determined by the operands; a NaN
/// result's payload is not, so the exact bits are fixed only where
/// the result is not NaN.
#[verifier::external_body]
fn single_div_raw(a: F32Bits, b: F32Bits) -> (r: F32Bits)
    ensures
        spec_is_nan32(r.bits) == spec_is_nan32(single_div_bits(a.bits, b.bits)),
        !spec_is_nan32(r.bits) ==> r.bits == single_div_bits(a.bits, b.bits),
{
    F32Bits { bits: (Binary32::from_bits(a.bits) / Binary32::from_bits(b.bits)).to_bits() }
}

/// The engine's single precision division: the IEEE result with a NaN
/// replaced by the canonical quiet NaN.
pub open spec fn spec_single_div(a: u32, b: u32) -> u32 {
    if spec_is_nan32(single_div_bits(a, b)) {
        F32_QNAN_BITS
    } else {
        single_div_bits(a, b)
    }
}

pub(crate) fn single_div(a: F32Bits, b: F32Bits) -> (r: F32Bits)
    ensures
        r.bits == spec_single_div(a.bits, b.bits),
{
    let x = single_div_raw(a, b);
    if is_nan32(x.bits) {
        F32Bits { bits: F32_QNAN_BITS }
    } else {
        x
    }
}

/// IEEE-754 negation is the flip of the sign bit, NaN included, so
/// it is written out rather than taken on trust.
pub open spec fn spec_single_neg(a: u32) -> u32 {
    a ^ 0x80000000u32
}

pub(crate) fn single_neg(a: F32Bits) -> (r: F32Bits)
    ensures
        r.bits == spec_single_neg(a.bits),
{
    F32Bits { bits: a.bits ^ 0x80000000u32 }
}

/// IEEE-754 single precision equality over bit patterns. The
/// comparison is symmetric in its operands, so the name is applied to
/// the two patterns in a fixed order.
pub open spec fn spec_single_eq(a: u32, b: u32) -> bool {
    if a <= b {
        single_eq_bits(a, b)
    } else {
        single_eq_bits(b, a)
    }
}

/// IEEE-754 double precision equality over bit patterns, with the
/// operands in a fixed order as in `spec_single_eq`.
pub open spec fn spec_double_eq(a: u64, b: u64) -> bool {
    if a <= b {
        double_eq_bits(a, b)
    } else {
        double_eq_bits(b, a)
    }
}

/// Relies on single precision `==` of core, which the IEEE-754
/// standard documents as symmetric in its operands.
#[verifier::external_body]
pub(crate) fn single_eq(a: F32Bits, b: F32Bits) -> (r: bool)
    ensures
        r == spec_single_eq(a.bits, b.bits),
        a.bits <= b.bits ==> r == single_eq_bits(a.bits, b.bits),
        a.bits > b.bits ==> r == single_eq_bits(b.bits, a.bits),
{
    Binary32::from_bits(a.bits) == Binary32::from_bits(b.bits)
}

/// Relies on single precision `<` of core (IEEE-754 ordered less-than).
#[verifier::external_body]
pub(crate) fn single_lt(a: F32Bits, b: F32Bits) -> (r: bool)
    ensures
        r == single_lt_bits(a.bits, b.bits),
{
    Binary32::from_bits(a.bits) < Binary32::from_bits(b.bits)
}

/// Relies on single precision `<=` of core.
#[verifier::external_body]
pub(crate) fn single_le(a: F32Bits, b: F32Bits) -> (r: bool)
    ensures
        r == single_le_bits(a.bits, b.bits),
{
    Binary32::from_bits(a.bits) <= Binary32::from_bits(b.bits)
}

/// Relies on core's `i32 as f32` conversion (IEEE-754 round to
/// nearest).
#[verifier::external_body]
pub(crate) fn single_from_i32(a: i32) -> (r: F32Bits)
    ensures
        r.bits == single_of_i32(a),
{
    F32Bits { bits: (a as Binary32).to_bits() }
}

/// Relies on core's `u32 as f32` conversion.
#[verifier::external_body]
pub(crate) fn single_from_u32(a: u32) -> (r: F32Bits)
    ensures
        r.bits == single_of_u32(a),
{
    F32Bits { bits: (a as Binary32).to_bits() }
}

/// Relies on core's `f64 as f32` conversion (rounding to nearest);
/// a NaN input gives a NaN whose payload is unspecified, so the
/// exact bits are fixed only where the result is not NaN.
#[verifier::external_body]
fn single_from_double_raw(a: F64Bits) -> (r: F32Bits)
    ensures
        spec_is_nan32(r.bits) == spec_is_nan32(single_of_double(a.bits)),
        !spec_is_nan32(r.bits) ==> r.bits == single_of_double(a.bits),
{
    F32Bits { bits: ((Binary64::from_bits(a.bits)) as Binary32).to_bits() }
}

/// The engine's narrowing of a double precision pattern: the IEEE
/// conversion with a NaN replaced by the canonical quiet NaN.
pub open spec fn spec_single_of_double(a: u64) -> u32 {
    if spec_is_nan32(single_of_double(a)) {
        F32_QNAN_BITS
    } else {
        single_of_double(a)
    }
}

pub(crate) fn single_from_double(a: F64Bits) -> (r: F32Bits)
    ensures
        r.bits == spec_single_of_double(a.bits),
{
    let x = single_from_double_raw(a);
    if is_nan32(x.bits) {
        F32Bits { bits: F32_QNAN_BITS }
    } else {
        x
    }
}

/// Relies on core's `f32 as i32` conversion (truncation toward zero,
/// saturating at the type's bounds, NaN to zero).
#[verifier::external_body]
pub(crate) fn single_to_i32(a: F32Bits) -> (r: i32)
    ensures
        r == i32_of_single(a.bits),
{
    Binary32::from_bits(a.bits) as i32
}

/// Relies on core's `f32 as u32` conversion.
#[verifier::external_body]
pub(crate) fn single_to_u32(a: F32Bits) -> (r: u32)
    ensures
        r == u32_of_single(a.bits),
{
    Binary32::from_bits(a.bits) as u32
}

/// Relies on double precision `+` of core (IEEE-754 addition);
/// exact bits fixed only where the result is not NaN.
#[verifier::external_body]
fn double_add_raw(a: F64Bits, b: F64Bits) -> (r: F64Bits)
    ensures
        spec_is_nan64(r.bits) == spec_is_nan64(double_add_bits(a.bits, b.bits)),
        !spec_is_nan64(r.bits) ==> r.bits == double_add_bits(a.bits, b.bits),
{
    F64Bits { bits: (Binary64::from_bits(a.bits) + Binary64::from_bits(b.bits)).to_bits() }
}

/// The engine's double precision addition: the IEEE result with a NaN
/// replaced by the canonical quiet NaN.
pub open spec fn spec_double_add(a: u64, b: u64) -> u64 {
    if spec_is_nan64(double_add_bits(a, b)) {
        F64_QNAN_BITS
    } else {
        double_add_bits(a, b)
    }
}

pub(crate) fn double_add(a: F64Bits, b: F64Bits) -> (r: F64Bits)
    ensures
        r.bits == spec_double_add(a.bits, b.bits),
{
    let x = double_add_raw(a, b);
    if is_nan64(x.bits) {
        F64Bits { bits: F64_QNAN_BITS }
    } else {
        x
    }
}

/// Relies on double precision `-` of core (IEEE-754 subtraction);
/// exact bits fixed only where the result is not NaN.
#[verifier::external_body]
fn double_sub_raw(a: F64Bits, b: F64Bits) -> (r: F64Bits)
    ensures
        spec_is_nan64(r.bits) == spec_is_nan64(double_sub_bits(a.bits, b.bits)),
        !spec_is_nan64(r.bits) ==> r.bits == double_sub_bits(a.bits, b.bits),
{
    F64Bits { bits: (Binary64::from_bits(a.bits) - Binary64::from_bits(b.bits)).to_bits() }
}

/// The engine's double precision subtraction: the IEEE result with a NaN
/// replaced by the canonical quiet NaN.
pub open spec fn spec_double_sub(a: u64, b: u64) -> u64 {
    if spec_is_nan64(double_sub_bits(a, b)) {
        F64_QNAN_BITS
    } else {
        double_sub_bits(a, b)
    }
}

pub(crate) fn double_sub(a: F64Bits, b: F64Bits) -> (r: F64Bits)
    ensures
        r.bits == spec_double_sub(a.bits, b.bits),
{
    let x = double_sub_raw(a, b);
    if is_nan64(x.bits) {
        F64Bits { bits: F64_QNAN_BITS }
    } else {
        x
    }
}

/// Relies on double precision `*` of core (IEEE-754 multiplication);
/// exact bits fixed only where the result is not NaN.
#[verifier::external_body]
fn double_mul_raw(a: F64Bits, b: F64Bits) -> (r: F64Bits)
    ensures
        spec_is_nan64(r.bits) == spec_is_nan64(double_mul_bits(a.bits, b.bits)),
        !spec_is_nan64(r.bits) ==> r.bits == double_mul_bits(a.bits, b.bits),
{
    F64Bits { bits: (Binary64::from_bits(a.bits) * Binary64::from_bits(b.bits)).to_bits() }
}

/// The engine's double precision multiplication: the IEEE result with a NaN
/// replaced by the canonical quiet NaN.
pub open spec fn spec_double_mul(a: u64, b: u64) -> u64 {
    if spec_is_nan64(double_mul_bits(a, b)) {
        F64_QNAN_BITS
    } else {
        double_mul_bits(a, b)
    }
}

pub(crate) fn double_mul(a: F64Bits, b: F64Bits) -> (r: F64Bits)
    ensures
        r.bits == spec_double_mul(a.bits, b.bits),
{
    let x = double_mul_raw(a, b);
    if is_nan64(x.bits) {
        F64Bits { bits: F64_QNAN_BITS }
    } else {
        x
    }
}

/// Relies on double precision `/` of core (IEEE-754 division);
/// exact bits fixed only where the result is not NaN.
#[verifier::external_body]
fn double_div_raw(a: F64Bits, b: F64Bits) -> (r: F64Bits)
    ensures
        spec_is_nan64(r.bits) == spec_is_nan64(double_div_bits(a.bits, b.bits)),
        !spec_is_nan64(r.bits) ==> r.bits == double_div_bits(a.bits, b.bits),
{
    F64Bits { bits: (Binary64::from_bits(a.bits) / Binary64::from_bits(b.bits)).to_bits() }
}

/// The engine's double precision division: the IEEE result with a NaN
/// replaced by the canonical quiet NaN.
pub open spec fn spec_double_div(a: u64, b: u64) -> u64 {
    if spec_is_nan64(double_div_bits(a, b)) {
        F64_QNAN_BITS
    } else {
        double_div_bits(a, b)
    }
}

pub(crate) fn double_div(a: F64Bits, b: F64Bits) -> (r: F64Bits)
    ensures
        r.bits == spec_double_div(a.bits, b.bits),
{
    let x = double_div_raw(a, b);
    if is_nan64(x.bits) {
        F64Bits { bits: F64_QNAN_BITS }
    } else {
        x
    }
}

/// IEEE-754 negation of a double precision pattern: the sign-bit
/// flip, NaN included.
pub open spec fn spec_double_neg(a: u64) -> u64 {
    a ^ 0x8000000000000000u64
}

pub(crate) fn double_neg(a: F64Bits) -> (r: F64Bits)
    ensures
        r.bits == spec_double_neg(a.bits),
{
    F64Bits { bits: a.bits ^ 0x8000000000000000u64 }
}

/// Relies on double precision `==` of core, which the IEEE-754
/// standard documents as symmetric in its operands.
#[verifier::external_body]
pub(crate) fn double_eq(a: F64Bits, b: F64Bits) -> (r: bool)
    ensures
        r == spec_double_eq(a.bits, b.bits),
        a.bits <= b.bits ==> r == double_eq_bits(a.bits, b.bits),
        a.bits > b.bits ==> r == double_eq_bits(b.bits, a.bits),
{
    Binary64::from_bits(a.bits) == Binary64::from_bits(b.bits)
}

/// Relies on double precision `<` of core.
#[verifier::external_body]
pub(crate) fn double_lt(a: F64Bits, b: F64Bits) -> (r: bool)
    ensures
        r == double_lt_bits(a.bits, b.bits),
{
    Binary64::from_bits(a.bits) < Binary64::from_bits(b.bits)
}

/// Relies on double precision `<=` of core.
#[verifier::external_body]
pub(crate) fn double_le(a: F64Bits, b: F64Bits) -> (r: bool)
    ensures
        r == double_le_bits(a.bits, b.bits),
{
    Binary64::from_bits(a.bits) <= Binary64::from_bits(b.bits)
}

/// Relies on core's `i32 as f64` conversion (exact for every `i32`).
#[verifier::external_body]
pub(crate) fn double_from_i32(a: i32) -> (r: F64Bits)
    ensures
        r.bits == double_of_i32(a),
{
    F64Bits { bits: (a as Binary64).to_bits() }
}

/// Relies on core's `u32 as f64` conversion (exact for every `u32`).
#[verifier::external_body]
pub(crate) fn double_from_u32(a: u32) -> (r: F64Bits)
    ensures
        r.bits == double_of_u32(a),
{
    F64Bits { bits: (a as Binary64).to_bits() }
}

/// Relies on core's `f32 as f64` conversion (exact widening); a NaN
/// input gives a NaN whose payload is unspecified, so the exact bits
/// are fixed only where the result is not NaN.
#[verifier::external_body]
fn double_from_single_raw(a: F32Bits) -> (r: F64Bits)
    ensures
        spec_is_nan64(r.bits) == spec_is_nan64(double_of_single(a.bits)),
        !spec_is_nan64(r.bits) ==> r.bits == double_of_single(a.bits),
{
    F64Bits { bits: ((Binary32::from_bits(a.bits)) as Binary64).to_bits() }
}

/// The engine's widening of a single precision pattern: the IEEE
/// conversion with a NaN replaced by the canonical quiet NaN.
pub open spec fn spec_double_of_single(a: u32) -> u64 {
    if spec_is_nan64(double_of_single(a)) {
        F64_QNAN_BITS
    } else {
        double_of_single(a)
    }
}

pub(crate) fn double_from_single(a: F32Bits) -> (r: F64Bits)
    ensures
        r.bits == spec_double_of_single(a.bits),
{
    let x = double_from_single_raw(a);
    if is_nan64(x.bits) {
        F64Bits { bits: F64_QNAN_BITS }
    } else {
        x
    }
}

/// Relies on core's `f64 as i32` conversion (truncation toward zero,
/// saturating, NaN to zero).
#[verifier::external_body]
pub(crate) fn double_to_i32(a: F64Bits) -> (r: i32)
    ensures
        r == i32_of_double(a.bits),
{
    Binary64::from_bits(a.bits) as i32
}

/// Relies on core's `f64 as u32` conversion.
#[verifier::external_body]
pub(crate) fn double_to_u32(a: F64Bits) -> (r: u32)
    ensures
        r == u32_of_double(a.bits),
{
    Binary64::from_bits(a.bits) as u32
}

/// A unary operation on a single element of a shaped value.
#[derive(Copy, Clone, PartialEq, Eq, Structural, Debug)]
pub enum UnaryElemOp {
    /// Unary plus: the identity on every numeric element.
    Identity,
    /// Unary minus: wrapping negation on the integers, IEEE negation
    /// on the floating point types.
    Negate,
    /// Logical not, defined on `bool` alone.
    LogicNot,
    /// Bitwise complement, defined on the integers alone.
    Complement,
}

/// A binary operation applied component-wise to shaped values.
#[derive(Copy, Clone, PartialEq, Eq, Structural, Debug)]
pub enum BinElemOp {
    Add,
    Sub,
    Mul,
    Div,
    Mod,
    BitOr,
    BitXor,
    BitAnd,
    LogicOr,
    LogicXor,
    LogicAnd,
}

/// A scalar ordering comparison; the result is a `bool`.
#[derive(Copy, Clone, PartialEq, Eq, Structural, Debug)]
pub enum CmpElemOp {
    Less,
    Greater,
    LessEq,
    GreaterEq,
}

/// The element algebra shared by the five base types. An operation
/// returns `None` where it is not defined on the type (logical not on
/// an integer), or where the value is outside its domain (integer
/// division by zero); the overload dispatcher treats such an absence
/// as "keep searching".
pub trait ScalarElem: Sized + Copy {
    spec fn un_spec(op: UnaryElemOp, a: Self) -> Option<Self>;

    spec fn bin_spec(op: BinElemOp, a: Self, b: Self) -> Option<Self>;

    spec fn cmp_spec(op: CmpElemOp, a: Self, b: Self) -> Option<bool>;

    /// Value equality: plain equality on `bool` and the integers, the
    /// IEEE comparison on the floating point types.
    spec fn eq_spec(a: Self, b: Self) -> bool;

    fn un_op(op: UnaryElemOp, a: Self) -> (r: Option<Self>)
        ensures
            r == Self::un_spec(op, a),
    ;

    fn bin_op(op: BinElemOp, a: Self, b: Self) -> (r: Option<Self>)
        ensures
            r == Self::bin_spec(op, a, b),
    ;

    fn cmp_op(op: CmpElemOp, a: Self, b: Self) -> (r: Option<bool>)
        ensures
            r == Self::cmp_spec(op, a, b),
    ;

    fn eq_op(a: Self, b: Self) -> (r: bool)
        ensures
            r == Self::eq_spec(a, b),
    ;
}

impl ScalarElem for bool {
    open spec fn un_spec(op: UnaryElemOp, a: bool) -> Option<bool> {
        match op {
            UnaryElemOp::LogicNot => Some(!a),
            _ => None,
        }
    }

    open spec fn bin_spec(op: BinElemOp, a: bool, b: bool) -> Option<bool> {
        match op {
            BinElemOp::LogicOr => Some(a || b),
            BinElemOp::LogicXor => Some(a != b),
            BinElemOp::LogicAnd => Some(a && b),
            _ => None,
        }
    }

    open spec fn cmp_spec(op: CmpElemOp, a: bool, b: bool) -> Option<bool> {
        None
    }

    open spec fn eq_spec(a: bool, b: bool) -> bool {
        a == b
    }

    fn un_op(op: UnaryElemOp, a: bool) -> (r: Option<bool>) {
        match op {
            UnaryElemOp::LogicNot => Some(!a),
            _ => None,
        }
    }

    fn bin_op(op: BinElemOp, a: bool, b: bool) -> (r: Option<bool>) {
        match op {
            BinElemOp::LogicOr => Some(a || b),
            BinElemOp::LogicXor => Some(a != b),
            BinElemOp::LogicAnd => Some(a && b),
            _ => None,
        }
    }

    fn cmp_op(op: CmpElemOp, a: bool, b: bool) -> (r: Option<bool>) {
        None
    }

    fn eq_op(a: bool, b: bool) -> (r: bool) {
        a == b
    }
}

impl ScalarElem for i32 {
    open spec fn un_spec(op: UnaryElemOp, a: i32) -> Option<i32> {
        match op {
            UnaryElemOp::Identity => Some(a),
            UnaryElemOp::Negate => Some(i32::wrapping_sub(0i32, a)),
            UnaryElemOp::LogicNot => None,
            UnaryElemOp::Complement => Some(!a),
        }
    }

    open spec fn bin_spec(op: BinElemOp, a: i32, b: i32) -> Option<i32> {
        match op {
            BinElemOp::Add => Some(i32::wrapping_add(a, b)),
            BinElemOp::Sub => Some(i32::wrapping_sub(a, b)),
            BinElemOp::Mul => Some(i32::wrapping_mul(a, b)),
            BinElemOp::Div => i32::checked_div(a, b),
            BinElemOp::Mod => i32::checked_rem(a, b),
            BinElemOp::BitOr => Some(a | b),
            BinElemOp::BitXor => Some(a ^ b),
            BinElemOp::BitAnd => Some(a & b),
            _ => None,
        }
    }

    open spec fn cmp_spec(op: CmpElemOp, a: i32, b: i32) -> Option<bool> {
        match op {
            CmpElemOp::Less => Some(a < b),
            CmpElemOp::Greater => Some(a > b),
            CmpElemOp::LessEq => Some(a <= b),
            CmpElemOp::GreaterEq => Some(a >= b),
        }
    }

    open spec fn eq_spec(a: i32, b: i32) -> bool {
        a == b
    }

    fn un_op(op: UnaryElemOp, a: i32) -> (r: Option<i32>) {
        match op {
            UnaryElemOp::Identity => Some(a),
            UnaryElemOp::Negate => Some(0i32.wrapping_sub(a)),
            UnaryElemOp::LogicNot => None,
            UnaryElemOp::Complement => Some(!a),
        }
    }

    fn bin_op(op: BinElemOp, a: i32, b: i32) -> (r: Option<i32>) {
        match op {
            BinElemOp::Add => Some(a.wrapping_add(b)),
            BinElemOp::Sub => Some(a.wrapping_sub(b)),
            BinElemOp::Mul => Some(a.wrapping_mul(b)),
            BinElemOp::Div => a.checked_div(b),
            BinElemOp::Mod => a.checked_rem(b),
            BinElemOp::BitOr => Some(a | b),
            BinElemOp::BitXor => Some(a ^ b),
            BinElemOp::BitAnd => Some(a & b),
            _ => None,
        }
    }

    fn cmp_op(op: CmpElemOp, a: i32, b: i32) -> (r: Option<bool>) {
        match op {
            CmpElemOp::Less => Some(a < b),
            CmpElemOp::Greater => Some(a > b),
            CmpElemOp::LessEq => Some(a <= b),
            CmpElemOp::GreaterEq => Some(a >= b),
        }
    }

    fn eq_op(a: i32, b: i32) -> (r: bool) {
        a == b
    }
}

impl ScalarElem for u32 {
    open spec fn un_spec(op: UnaryElemOp, a: u32) -> Option<u32> {
        match op {
            UnaryElemOp::Identity => Some(a),
            UnaryElemOp::Negate => Some(u32::wrapping_sub(0u32, a)),
            UnaryElemOp::LogicNot => None,
            UnaryElemOp::Complement => Some(!a),
        }
    }

    open spec fn bin_spec(op: BinElemOp, a: u32, b: u32) -> Option<u32> {
        match op {
            BinElemOp::Add => Some(u32::wrapping_add(a, b)),
            BinElemOp::Sub => Some(u32::wrapping_sub(a, b)),
            BinElemOp::Mul => Some(u32::wrapping_mul(a, b)),
            BinElemOp::Div => u32::checked_div(a, b),
            BinElemOp::Mod => u32::checked_rem(a, b),
            BinElemOp::BitOr => Some(a | b),
            BinElemOp::BitXor => Some(a ^ b),
            BinElemOp::BitAnd => Some(a & b),
            _ => None,
        }
    }

    open spec fn cmp_spec(op: CmpElemOp, a: u32, b: u32) -> Option<bool> {
        match op {
            CmpElemOp::Less => Some(a < b),
            CmpElemOp::Greater => Some(a > b),
            CmpElemOp::LessEq => Some(a <= b),
            CmpElemOp::GreaterEq => Some(a >= b),
        }
    }

    open spec fn eq_spec(a: u32, b: u32) -> bool {
        a == b
    }

    fn un_op(op: UnaryElemOp, a: u32) -> (r: Option<u32>) {
        match op {
            UnaryElemOp::Identity => Some(a),
            UnaryElemOp::Negate => Some(0u32.wrapping_sub(a)),
            UnaryElemOp::LogicNot => None,
            UnaryElemOp::Complement => Some(!a),
        }
    }

    fn bin_op(op: BinElemOp, a: u32, b: u32) -> (r: Option<u32>) {
        match op {
            BinElemOp::Add => Some(a.wrapping_add(b)),
            BinElemOp::Sub => Some(a.wrapping_sub(b)),
            BinElemOp::Mul => Some(a.wrapping_mul(b)),
            BinElemOp::Div => a.checked_div(b),
            BinElemOp::Mod => a.checked_rem(b),
            BinElemOp::BitOr => Some(a | b),
            BinElemOp::BitXor => Some(a ^ b),
            BinElemOp::BitAnd => Some(a & b),
            _ => None,
        }
    }

    fn cmp_op(op: CmpElemOp, a: u32, b: u32) -> (r: Option<bool>) {
        match op {
            CmpElemOp::Less => Some(a < b),
            CmpElemOp::Greater => Some(a > b),
            CmpElemOp::LessEq => Some(a <= b),
            CmpElemOp::GreaterEq => Some(a >= b),
        }
    }

    fn eq_op(a: u32, b: u32) -> (r: bool) {
        a == b
    }
}

impl ScalarElem for F32Bits {
    open spec fn un_spec(op: UnaryElemOp, a: F32Bits) -> Option<F32Bits> {
        match op {
            UnaryElemOp::Identity => Some(a),
            UnaryElemOp::Negate => Some(F32Bits { bits: spec_single_neg(a.bits) }),
            _ => None,
        }
    }

    open spec fn bin_spec(op: BinElemOp, a: F32Bits, b: F32Bits) -> Option<F32Bits> {
        match op {
            BinElemOp::Add => Some(F32Bits { bits: spec_single_add(a.bits, b.bits) }),
            BinElemOp::Sub => Some(F32Bits { bits: spec_single_sub(a.bits, b.bits) }),
            BinElemOp::Mul => Some(F32Bits { bits: spec_single_mul(a.bits, b.bits) }),
            BinElemOp::Div => Some(F32Bits { bits: spec_single_div(a.bits, b.bits) }),
            _ => None,
        }
    }

    open spec fn cmp_spec(op: CmpElemOp, a: F32Bits, b: F32Bits) -> Option<bool> {
        match op {
            CmpElemOp::Less => Some(single_lt_bits(a.bits, b.bits)),
            CmpElemOp::Greater => Some(single_lt_bits(b.bits, a.bits)),
            CmpElemOp::LessEq => Some(single_le_bits(a.bits, b.bits)),
            CmpElemOp::GreaterEq => Some(single_le_bits(b.bits, a.bits)),
        }
    }

    open spec fn eq_spec(a: F32Bits, b: F32Bits) -> bool {
        spec_single_eq(a.bits, b.bits)
    }

    fn un_op(op: UnaryElemOp, a: F32Bits) -> (r: Option<F32Bits>) {
        match op {
            UnaryElemOp::Identity => Some(a),
            UnaryElemOp::Negate => Some(single_neg(a)),
            _ => None,
        }
    }

    fn bin_op(op: BinElemOp, a: F32Bits, b: F32Bits) -> (r: Option<F32Bits>) {
        match op {
            BinElemOp::Add => Some(single_add(a, b)),
            BinElemOp::Sub => Some(single_sub(a, b)),
            BinElemOp::Mul => Some(single_mul(a, b)),
            BinElemOp::Div => Some(single_div(a, b)),
            _ => None,
        }
    }

    fn cmp_op(op: CmpElemOp, a: F32Bits, b: F32Bits) -> (r: Option<bool>) {
        match op {
            CmpElemOp::Less => Some(single_lt(a, b)),
            CmpElemOp::Greater => Some(single_lt(b, a)),
            CmpElemOp::LessEq => Some(single_le(a, b)),
            CmpElemOp::GreaterEq => Some(single_le(b, a)),
        }
    }

    fn eq_op(a: F32Bits, b: F32Bits) -> (r: bool) {
        single_eq(a, b)
    }
}

impl ScalarElem for F64Bits {
    open spec fn un_spec(op: UnaryElemOp, a: F64Bits) -> Option<F64Bits> {
        match op {
            UnaryElemOp::Identity => Some(a),
            UnaryElemOp::Negate => Some(F64Bits { bits: spec_double_neg(a.bits) }),
            _ => None,
        }
    }

    open spec fn bin_spec(op: BinElemOp, a: F64Bits, b: F64Bits) -> Option<F64Bits> {
        match op {
            BinElemOp::Add => Some(F64Bits { bits: spec_double_add(a.bits, b.bits) }),
            BinElemOp::Sub => Some(F64Bits { bits: spec_double_sub(a.bits, b.bits) }),
            BinElemOp::Mul => Some(F64Bits { bits: spec_double_mul(a.bits, b.bits) }),
            BinElemOp::Div => Some(F64Bits { bits: spec_double_div(a.bits, b.bits) }),
            _ => None,
        }
    }

    open spec fn cmp_spec(op: CmpElemOp, a: F64Bits, b: F64Bits) -> Option<bool> {
        match op {
            CmpElemOp::Less => Some(double_lt_bits(a.bits, b.bits)),
            CmpElemOp::Greater => Some(double_lt_bits(b.bits, a.bits)),
            CmpElemOp::LessEq => Some(double_le_bits(a.bits, b.bits)),
            CmpElemOp::GreaterEq => Some(double_le_bits(b.bits, a.bits)),
        }
    }

    open spec fn eq_spec(a: F64Bits, b: F64Bits) -> bool {
        spec_double_eq(a.bits, b.bits)
    }

    fn un_op(op: UnaryElemOp, a: F64Bits) -> (r: Option<F64Bits>) {
        match op {
            UnaryElemOp::Identity => Some(a),
            UnaryElemOp::Negate => Some(double_neg(a)),
            _ => None,
        }
    }

    fn bin_op(op: BinElemOp, a: F64Bits, b: F64Bits) -> (r: Option<F64Bits>) {
        match op {
            BinElemOp::Add => Some(double_add(a, b)),
            BinElemOp::Sub => Some(double_sub(a, b)),
            BinElemOp::Mul => Some(double_mul(a, b)),
            BinElemOp::Div => Some(double_div(a, b)),
            _ => None,
        }
    }

    fn cmp_op(op: CmpElemOp, a: F64Bits, b: F64Bits) -> (r: Option<bool>) {
        match op {
            CmpElemOp::Less => Some(double_lt(a, b)),
            CmpElemOp::Greater => Some(double_lt(b, a)),
            CmpElemOp::LessEq => Some(double_le(a, b)),
            CmpElemOp::GreaterEq => Some(double_le(b, a)),
        }
    }

    fn eq_op(a: F64Bits, b: F64Bits) -> (r: bool) {
        double_eq(a, b)
    }
}

/// The equality of the element algebra is symmetric for every base
/// type: on `bool` and the integers it is plain equality, and the
/// IEEE comparison applies its name to the bit patterns in a fixed
/// order.
pub proof fn lemma_elem_eq_symmetric_single(a: F32Bits, b: F32Bits)
    ensures
        F32Bits::eq_spec(a, b) == F32Bits::eq_spec(b, a),
{
}

pub proof fn lemma_elem_eq_symmetric_double(a: F64Bits, b: F64Bits)
    ensures
        F64Bits::eq_spec(a, b) == F64Bits::eq_spec(b, a),
{
}

} // verus!
