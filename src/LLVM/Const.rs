use vstd::prelude::*;

use crate::types::{Constant, IrType};

verus! {

/// An integer constant of `num_bits` bits; `val` is sign-extended to that width.
pub fn SInt(num_bits: u32, val: u64) -> (r: Constant)
    ensures
        r == (Constant { ty: IrType::Int(num_bits), val, sign_extend: true }),
{
    Constant { ty: IrType::Int(num_bits), val, sign_extend: true }
}

/// An integer constant of `num_bits` bits; `val` is zero-extended to that width.
pub fn UInt(num_bits: u32, val: u64) -> (r: Constant)
    ensures
        r == (Constant { ty: IrType::Int(num_bits), val, sign_extend: false }),
{
    Constant { ty: IrType::Int(num_bits), val, sign_extend: false }
}

/// A 1-bit integer constant; `val` is sign-extended to that width.
pub fn SInt1(val: u64) -> (r: Constant)
    ensures
        r == (Constant { ty: IrType::Int(1), val, sign_extend: true }),
{
    SInt(1, val)
}

/// A 1-bit integer constant; `val` is zero-extended to that width.
pub fn UInt1(val: u64) -> (r: Constant)
    ensures
        r == (Constant { ty: IrType::Int(1), val, sign_extend: false }),
{
    UInt(1, val)
}

/// A 8-bit integer constant; `val` is sign-extended to that width.
pub fn SInt8(val: u64) -> (r: Constant)
    ensures
        r == (Constant { ty: IrType::Int(8), val, sign_extend: true }),
{
    SInt(8, val)
}

/// A 8-bit integer constant; `val` is zero-extended to that width.
pub fn UInt8(val: u64) -> (r: Constant)
    ensures
        r == (Constant { ty: IrType::Int(8), val, sign_extend: false }),
{
    UInt(8, val)
}

/// A 16-bit integer constant; `val` is sign-extended to that width.
pub fn SInt16(val: u64) -> (r: Constant)
    ensures
        r == (Constant { ty: IrType::Int(16), val, sign_extend: true }),
{
    SInt(16, val)
}

/// A 16-bit integer constant; `val` is zero-extended to that width.
pub fn UInt16(val: u64) -> (r: Constant)
    ensures
        r == (Constant { ty: IrType::Int(16), val, sign_extend: false }),
{
    UInt(16, val)
}

/// A 32-bit integer constant; `val` is sign-extended to that width.
pub fn SInt32(val: u64) -> (r: Constant)
    ensures
        r == (Constant { ty: IrType::Int(32), val, sign_extend: true }),
{
    SInt(32, val)
}

/// A 32-bit integer constant; `val` is zero-extended to that width.
pub fn UInt32(val: u64) -> (r: Constant)
    ensures
        r == (Constant { ty: IrType::Int(32), val, sign_extend: false }),
{
    UInt(32, val)
}

/// A 64-bit integer constant; `val` is sign-extended to that width.
pub fn SInt64(val: u64) -> (r: Constant)
    ensures
        r == (Constant { ty: IrType::Int(64), val, sign_extend: true }),
{
    SInt(64, val)
}

/// A 64-bit integer constant; `val` is zero-extended to that width.
pub fn UInt64(val: u64) -> (r: Constant)
    ensures
        r == (Constant { ty: IrType::Int(64), val, sign_extend: false }),
{
    UInt(64, val)
}

/// A 128-bit integer constant; `val` is sign-extended to that width.
pub fn SInt128(val: u64) -> (r: Constant)
    ensures
        r == (Constant { ty: IrType::Int(128), val, sign_extend: true }),
{
    SInt(128, val)
}

/// A 128-bit integer constant; `val` is zero-extended to that width.
pub fn UInt128(val: u64) -> (r: Constant)
    ensures
        r == (Constant { ty: IrType::Int(128), val, sign_extend: false }),
{
    UInt(128, val)
}

} // verus!
