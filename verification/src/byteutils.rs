//! Byte and word primitives: splitting and joining the 8-bit halves of a
//! 16-bit word, and the arithmetic / bitwise operations that also compute
//! the carry, overflow, sign and zero flags.

use vstd::prelude::*;

verus! {

/// The low half (bits 0-7) of a 16-bit word.
pub open spec fn spec_low8(val: u16) -> u8 {
    (val % 256) as u8
}

/// The high half (bits 8-15) of a 16-bit word.
pub open spec fn spec_high8(val: u16) -> u8 {
    (val / 256) as u8
}

/// The 16-bit word with low half `low` and high half `high`.
pub open spec fn spec_join8(low: u8, high: u8) -> u16 {
    (low + high * 256) as u16
}

/// The sign bit (bit 7) of a byte.
pub open spec fn spec_sign8(val: u8) -> bool {
    val >= 0x80
}

/// The sign bit (bit 15) of a word.
pub open spec fn spec_sign16(val: u16) -> bool {
    val >= 0x8000
}

/// 16-bit addition modulo 2^16.
pub open spec fn spec_wrap_add16(a: u16, b: u16) -> u16 {
    ((a + b) % 0x10000) as u16
}

/// Splitting a word and joining the halves again gives the word back.
pub proof fn lemma_split_join(w: u16)
    ensures
        spec_join8(spec_low8(w), spec_high8(w)) == w,
{
    assert(w == 256 * (w / 256) + w % 256) by (nonlinear_arith);
}

/// Joining two halves and splitting the result gives the halves back.
pub proof fn lemma_join_split(low: u8, high: u8)
    ensures
        spec_low8(spec_join8(low, high)) == low,
        spec_high8(spec_join8(low, high)) == high,
{
    assert((low + high * 256) % 256 == low && (low + high * 256) / 256 == high)
        by (nonlinear_arith)
        requires low < 256 && high < 256;
}

/// Return the low 8 bits of `val`: low8(0xBEEF) = 0xEF.
pub fn low8(val: u16) -> (r: u8)
    ensures
        r == spec_low8(val),
{
    (val % 256) as u8
}

/// Return the high 8 bits of `val`: high8(0xBEEF) = 0xBE.
pub fn high8(val: u16) -> (r: u8)
    ensures
        r == spec_high8(val),
{
    (val / 256) as u8
}

/// Join two bytes into a word: join8(0xEF, 0xBE) = 0xBEEF.
pub fn join8(low: u8, high: u8) -> (r: u16)
    ensures
        r == spec_join8(low, high),
{
    low as u16 + high as u16 * 256
}

/// Replace the low byte of `val` with `low`.
pub fn join_low8(val: u16, low: u8) -> (r: u16)
    ensures
        r == spec_join8(low, spec_high8(val)),
{
    join8(low, high8(val))
}

/// Replace the high byte of `val` with `high`.
pub fn join_high8(val: u16, high: u8) -> (r: u16)
    ensures
        r == spec_join8(spec_low8(val), high),
{
    join8(low8(val), high)
}

/// Overflow flag of a signed addition, from the three sign bits.
pub open spec fn spec_add_overflow(l_sign: bool, r_sign: bool, result_sign: bool) -> bool {
    result_sign != l_sign && l_sign == r_sign
}

/// Overflow flag of a signed subtraction, from the three sign bits.
pub open spec fn spec_sub_overflow(l_sign: bool, r_sign: bool, result_sign: bool) -> bool {
    (!l_sign && r_sign && result_sign) || (l_sign && !r_sign && !result_sign)
}

/// Result and flags of an 8-bit addition:
/// (result, carry, overflow, sign, zero).
pub open spec fn spec_add8(left: u8, right: u8) -> (u8, bool, bool, bool, bool) {
    let res = ((left + right) % 256) as u8;
    (
        res,
        left + right > 255,
        spec_add_overflow(spec_sign8(left), spec_sign8(right), spec_sign8(res)),
        spec_sign8(res),
        res == 0,
    )
}

/// Result and flags of a 16-bit addition.
pub open spec fn spec_add16(left: u16, right: u16) -> (u16, bool, bool, bool, bool) {
    let res = ((left + right) % 0x10000) as u16;
    (
        res,
        left + right > 0xFFFF,
        spec_add_overflow(spec_sign16(left), spec_sign16(right), spec_sign16(res)),
        spec_sign16(res),
        res == 0,
    )
}

/// Result and flags of an 8-bit subtraction; carry is the borrow.
pub open spec fn spec_sub8(left: u8, right: u8) -> (u8, bool, bool, bool, bool) {
    let res = if left >= right { (left - right) as u8 } else { (left + 256 - right) as u8 };
    (
        res,
        left < right,
        spec_sub_overflow(spec_sign8(left), spec_sign8(right), spec_sign8(res)),
        spec_sign8(res),
        res == 0,
    )
}

/// Result and flags of a 16-bit subtraction; carry is the borrow.
pub open spec fn spec_sub16(left: u16, right: u16) -> (u16, bool, bool, bool, bool) {
    let res = if left >= right { (left - right) as u16 } else { (left + 0x10000 - right) as u16 };
    (
        res,
        left < right,
        spec_sub_overflow(spec_sign16(left), spec_sign16(right), spec_sign16(res)),
        spec_sign16(res),
        res == 0,
    )
}

/// Result and flags of a bitwise operation: carry and overflow are
/// always clear, sign and zero come from the result.
pub open spec fn spec_bitflags8(res: u8) -> (u8, bool, bool, bool, bool) {
    (res, false, false, spec_sign8(res), res == 0)
}

/// Result and flags of a 16-bit bitwise operation.
pub open spec fn spec_bitflags16(res: u16) -> (u16, bool, bool, bool, bool) {
    (res, false, false, spec_sign16(res), res == 0)
}

/// 8-bit add with flags: (result, carry, overflow, sign, zero).
pub fn add8(left: u8, right: u8) -> (r: (u8, bool, bool, bool, bool))
    ensures
        r == spec_add8(left, right),
{
    let sum: u16 = left as u16 + right as u16;
    let res: u8 = (sum % 256) as u8;
    let l_sign = left >= 0x80;
    let r_sign = right >= 0x80;
    let res_sign = res >= 0x80;
    (res, sum > 255, res_sign != l_sign && l_sign == r_sign, res_sign, res == 0)
}

/// 16-bit add with flags.
pub fn add16(left: u16, right: u16) -> (r: (u16, bool, bool, bool, bool))
    ensures
        r == spec_add16(left, right),
{
    let sum: u32 = left as u32 + right as u32;
    let res: u16 = (sum % 0x10000) as u16;
    let l_sign = left >= 0x8000;
    let r_sign = right >= 0x8000;
    let res_sign = res >= 0x8000;
    (res, sum > 0xFFFF, res_sign != l_sign && l_sign == r_sign, res_sign, res == 0)
}

/// 8-bit subtract with flags; carry reports the borrow.
pub fn sub8(left: u8, right: u8) -> (r: (u8, bool, bool, bool, bool))
    ensures
        r == spec_sub8(left, right),
{
    let res: u8 = if left >= right { left - right } else {
        ((left as u16 + 256 - right as u16) % 256) as u8
    };
    let l_sign = left >= 0x80;
    let r_sign = right >= 0x80;
    let res_sign = res >= 0x80;
    (
        res,
        left < right,
        (!l_sign && r_sign && res_sign) || (l_sign && !r_sign && !res_sign),
        res_sign,
        res == 0,
    )
}

/// 16-bit subtract with flags; carry reports the borrow.
pub fn sub16(left: u16, right: u16) -> (r: (u16, bool, bool, bool, bool))
    ensures
        r == spec_sub16(left, right),
{
    let res: u16 = if left >= right { left - right } else {
        ((left as u32 + 0x10000 - right as u32) % 0x10000) as u16
    };
    let l_sign = left >= 0x8000;
    let r_sign = right >= 0x8000;
    let res_sign = res >= 0x8000;
    (
        res,
        left < right,
        (!l_sign && r_sign && res_sign) || (l_sign && !r_sign && !res_sign),
        res_sign,
        res == 0,
    )
}

/// 8-bit bitwise or with flags.
pub fn or8(left: u8, right: u8) -> (r: (u8, bool, bool, bool, bool))
    ensures
        r == spec_bitflags8(left | right),
{
    let res = left | right;
    (res, false, false, res >= 0x80, res == 0)
}

/// 16-bit bitwise or with flags.
pub fn or16(left: u16, right: u16) -> (r: (u16, bool, bool, bool, bool))
    ensures
        r == spec_bitflags16(left | right),
{
    let res = left | right;
    (res, false, false, res >= 0x8000, res == 0)
}

/// 8-bit bitwise xor with flags.
pub fn xor8(left: u8, right: u8) -> (r: (u8, bool, bool, bool, bool))
    ensures
        r == spec_bitflags8(left ^ right),
{
    let res = left ^ right;
    (res, false, false, res >= 0x80, res == 0)
}

/// 16-bit bitwise xor with flags.
pub fn xor16(left: u16, right: u16) -> (r: (u16, bool, bool, bool, bool))
    ensures
        r == spec_bitflags16(left ^ right),
{
    let res = left ^ right;
    (res, false, false, res >= 0x8000, res == 0)
}

/// 8-bit bitwise and with flags.
pub fn and8(left: u8, right: u8) -> (r: (u8, bool, bool, bool, bool))
    ensures
        r == spec_bitflags8(left & right),
{
    let res = left & right;
    (res, false, false, res >= 0x80, res == 0)
}

/// 16-bit bitwise and with flags.
pub fn and16(left: u16, right: u16) -> (r: (u16, bool, bool, bool, bool))
    ensures
        r == spec_bitflags16(left & right),
{
    let res = left & right;
    (res, false, false, res >= 0x8000, res == 0)
}

} // verus!
