//! The transform library: pure functions from (lhs, rhs, flags-in) to
//! (result, flags-out) that the operation engine drives, in byte and
//! word widths.

use vstd::prelude::*;

use crate::byteutils::{
    spec_add8, spec_add16, spec_sub8, spec_sub16, spec_bitflags8, spec_bitflags16,
    spec_sign16, spec_add_overflow, spec_sub_overflow,
};
use crate::operand::Flags;

verus! {

/// The byte-width transforms an instruction can apply.
#[derive(Clone, Copy, Debug, PartialEq, Eq, Structural)]
pub enum Transform8 {
    Add,
    Sub,
    Or,
    Noop,
}

/// The word-width transforms an instruction can apply.
#[derive(Clone, Copy, Debug, PartialEq, Eq, Structural)]
pub enum Transform16 {
    Add,
    Sub,
    Or,
    Xor,
    And,
    Adc,
    Sbb,
    Noop,
}

/// Package the four flag bits of a 5-tuple arithmetic result.
pub open spec fn flags_of8(t: (u8, bool, bool, bool, bool)) -> Flags {
    Flags { carry: t.1, overflow: t.2, sign: t.3, zero: t.4 }
}

/// Package the four flag bits of a 16-bit 5-tuple arithmetic result.
pub open spec fn flags_of16(t: (u16, bool, bool, bool, bool)) -> Flags {
    Flags { carry: t.1, overflow: t.2, sign: t.3, zero: t.4 }
}

/// Result and flags of add-with-carry: lhs + rhs + (1 if carry-in).
/// The carry-out reports the full 17-bit sum; the overflow flag follows
/// the plain addition formula with the incremented addend taken modulo
/// 2^16.
pub open spec fn spec_adc16(left: u16, right: u16, f: Flags) -> (u16, Flags) {
    let c: int = if f.carry { 1 } else { 0 };
    let r2 = ((right + c) % 0x10000) as u16;
    let sum = left + right + c;
    let res = (sum % 0x10000) as u16;
    (
        res,
        Flags {
            carry: sum > 0xFFFF,
            overflow: spec_add_overflow(spec_sign16(left), spec_sign16(r2), spec_sign16(res)),
            sign: spec_sign16(res),
            zero: res == 0,
        },
    )
}

/// Result and flags of subtract-with-borrow: lhs - rhs - (1 if
/// carry-in). The carry-out reports the full borrow; the overflow flag
/// follows the plain subtraction formula with the incremented
/// subtrahend taken modulo 2^16.
pub open spec fn spec_sbb16(left: u16, right: u16, f: Flags) -> (u16, Flags) {
    let c: int = if f.carry { 1 } else { 0 };
    let d = right + c;
    let r2 = (d % 0x10000) as u16;
    let res = if left >= d { (left - d) as u16 } else { (left + 0x10000 - d) as u16 };
    (
        res,
        Flags {
            carry: (left as int) < d,
            overflow: spec_sub_overflow(spec_sign16(left), spec_sign16(r2), spec_sign16(res)),
            sign: spec_sign16(res),
            zero: res == 0,
        },
    )
}

/// What a byte transform computes from (lhs, rhs, flags-in).
pub open spec fn tf8_spec(t: Transform8, left: u8, right: u8, f: Flags) -> (u8, Flags) {
    match t {
        Transform8::Add => {
            let r = spec_add8(left, right);
            (r.0, flags_of8(r))
        },
        Transform8::Sub => {
            let r = spec_sub8(left, right);
            (r.0, flags_of8(r))
        },
        Transform8::Or => {
            let r = spec_bitflags8(left | right);
            (r.0, flags_of8(r))
        },
        Transform8::Noop => (right, f),
    }
}

/// What a word transform computes from (lhs, rhs, flags-in).
pub open spec fn tf16_spec(t: Transform16, left: u16, right: u16, f: Flags) -> (u16, Flags) {
    match t {
        Transform16::Add => {
            let r = spec_add16(left, right);
            (r.0, flags_of16(r))
        },
        Transform16::Sub => {
            let r = spec_sub16(left, right);
            (r.0, flags_of16(r))
        },
        Transform16::Or => {
            let r = spec_bitflags16(left | right);
            (r.0, flags_of16(r))
        },
        Transform16::Xor => {
            let r = spec_bitflags16(left ^ right);
            (r.0, flags_of16(r))
        },
        Transform16::And => {
            let r = spec_bitflags16(left & right);
            (r.0, flags_of16(r))
        },
        Transform16::Adc => spec_adc16(left, right, f),
        Transform16::Sbb => spec_sbb16(left, right, f),
        Transform16::Noop => (right, f),
    }
}

/// Wrapping add with full flag computation; the flags-in are ignored.
pub fn add8(left: u8, right: u8, _f: Flags) -> (r: (u8, Flags))
    ensures
        r == tf8_spec(Transform8::Add, left, right, _f),
{
    let (res, cf, of, sf, zf) = crate::byteutils::add8(left, right);
    (res, Flags { carry: cf, overflow: of, sign: sf, zero: zf })
}

/// Wrapping subtract with full flag computation.
pub fn sub8(left: u8, right: u8, _f: Flags) -> (r: (u8, Flags))
    ensures
        r == tf8_spec(Transform8::Sub, left, right, _f),
{
    let (res, cf, of, sf, zf) = crate::byteutils::sub8(left, right);
    (res, Flags { carry: cf, overflow: of, sign: sf, zero: zf })
}

/// Bitwise or; carry and overflow come out clear.
pub fn or8(left: u8, right: u8, _f: Flags) -> (r: (u8, Flags))
    ensures
        r == tf8_spec(Transform8::Or, left, right, _f),
{
    let (res, cf, of, sf, zf) = crate::byteutils::or8(left, right);
    (res, Flags { carry: cf, overflow: of, sign: sf, zero: zf })
}

/// MOV transform: hands the rhs through and leaves the flags untouched.
pub fn noop8(_left: u8, right: u8, flags: Flags) -> (r: (u8, Flags))
    ensures
        r == tf8_spec(Transform8::Noop, _left, right, flags),
{
    (right, flags)
}

/// Wrapping 16-bit add with full flag computation.
pub fn add16(left: u16, right: u16, _f: Flags) -> (r: (u16, Flags))
    ensures
        r == tf16_spec(Transform16::Add, left, right, _f),
{
    let (res, cf, of, sf, zf) = crate::byteutils::add16(left, right);
    (res, Flags { carry: cf, overflow: of, sign: sf, zero: zf })
}

/// Wrapping 16-bit subtract with full flag computation.
pub fn sub16(left: u16, right: u16, _f: Flags) -> (r: (u16, Flags))
    ensures
        r == tf16_spec(Transform16::Sub, left, right, _f),
{
    let (res, cf, of, sf, zf) = crate::byteutils::sub16(left, right);
    (res, Flags { carry: cf, overflow: of, sign: sf, zero: zf })
}

/// 16-bit bitwise or.
pub fn or16(left: u16, right: u16, _f: Flags) -> (r: (u16, Flags))
    ensures
        r == tf16_spec(Transform16::Or, left, right, _f),
{
    let (res, cf, of, sf, zf) = crate::byteutils::or16(left, right);
    (res, Flags { carry: cf, overflow: of, sign: sf, zero: zf })
}

/// 16-bit bitwise xor.
pub fn xor16(left: u16, right: u16, _f: Flags) -> (r: (u16, Flags))
    ensures
        r == tf16_spec(Transform16::Xor, left, right, _f),
{
    let (res, cf, of, sf, zf) = crate::byteutils::xor16(left, right);
    (res, Flags { carry: cf, overflow: of, sign: sf, zero: zf })
}

/// 16-bit bitwise and.
pub fn and16(left: u16, right: u16, _f: Flags) -> (r: (u16, Flags))
    ensures
        r == tf16_spec(Transform16::And, left, right, _f),
{
    let (res, cf, of, sf, zf) = crate::byteutils::and16(left, right);
    (res, Flags { carry: cf, overflow: of, sign: sf, zero: zf })
}

/// Add-with-carry: lhs + rhs + carry-in, flags recomputed from the
/// final result.
pub fn adc16(left: u16, right: u16, flags: Flags) -> (r: (u16, Flags))
    ensures
        r == spec_adc16(left, right, flags),
{
    let c: u32 = if flags.carry { 1 } else { 0 };
    let r2: u16 = ((right as u32 + c) % 0x10000) as u16;
    let sum: u32 = left as u32 + right as u32 + c;
    let res: u16 = (sum % 0x10000) as u16;
    let l_sign = left >= 0x8000;
    let r_sign = r2 >= 0x8000;
    let res_sign = res >= 0x8000;
    (
        res,
        Flags {
            carry: sum > 0xFFFF,
            overflow: res_sign != l_sign && l_sign == r_sign,
            sign: res_sign,
            zero: res == 0,
        },
    )
}

/// Subtract-with-borrow: lhs - rhs - carry-in, flags recomputed from
/// the final result.
pub fn sbb16(left: u16, right: u16, flags: Flags) -> (r: (u16, Flags))
    ensures
        r == spec_sbb16(left, right, flags),
{
    let c: u32 = if flags.carry { 1 } else { 0 };
    let d: u32 = right as u32 + c;
    let r2: u16 = (d % 0x10000) as u16;
    let res: u16 = if left as u32 >= d {
        (left as u32 - d) as u16
    } else {
        ((left as u32 + 0x10000 - d) % 0x10000) as u16
    };
    let l_sign = left >= 0x8000;
    let r_sign = r2 >= 0x8000;
    let res_sign = res >= 0x8000;
    (
        res,
        Flags {
            carry: (left as u32) < d,
            overflow: (!l_sign && r_sign && res_sign) || (l_sign && !r_sign && !res_sign),
            sign: res_sign,
            zero: res == 0,
        },
    )
}

/// MOV transform at word width: hands the rhs through, flags untouched.
pub fn noop16(_left: u16, right: u16, flags: Flags) -> (r: (u16, Flags))
    ensures
        r == tf16_spec(Transform16::Noop, _left, right, flags),
{
    (right, flags)
}

} // verus!
