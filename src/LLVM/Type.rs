use vstd::prelude::*;

use crate::types::IrType;

verus! {

/// A pointer to `elem_type` in `address_space`.
pub fn PointerType(elem_type: IrType, address_space: u32) -> (r: IrType)
    ensures
        r == IrType::Pointer(Box::new(elem_type), address_space),
{
    IrType::Pointer(Box::new(elem_type), address_space)
}

/// A pointer to `elem_type` in `address_space`.
pub fn Pointer(elem_type: IrType, address_space: u32) -> (r: IrType)
    ensures
        r == IrType::Pointer(Box::new(elem_type), address_space),
{
    PointerType(elem_type, address_space)
}

/// An integer of `num_bits` bits.
pub fn Int(num_bits: u32) -> (r: IrType)
    ensures
        r == IrType::Int(num_bits),
{
    IrType::Int(num_bits)
}

/// The 1-bit integer type.
pub fn Int1() -> (r: IrType)
    ensures
        r == IrType::Int(1),
{
    IrType::Int(1)
}

/// The 8-bit integer type.
pub fn Int8() -> (r: IrType)
    ensures
        r == IrType::Int(8),
{
    IrType::Int(8)
}

/// The 16-bit integer type.
pub fn Int16() -> (r: IrType)
    ensures
        r == IrType::Int(16),
{
    IrType::Int(16)
}

/// The 32-bit integer type.
pub fn Int32() -> (r: IrType)
    ensures
        r == IrType::Int(32),
{
    IrType::Int(32)
}

/// The 64-bit integer type.
pub fn Int64() -> (r: IrType)
    ensures
        r == IrType::Int(64),
{
    IrType::Int(64)
}

/// The 128-bit integer type.
pub fn Int128() -> (r: IrType)
    ensures
        r == IrType::Int(128),
{
    IrType::Int(128)
}

/// The type of no value.
pub fn Void() -> (r: IrType)
    ensures
        r == IrType::Void,
{
    IrType::Void
}

/// The 16-bit floating-point type.
pub fn Half() -> (r: IrType)
    ensures
        r == IrType::Half,
{
    IrType::Half
}

/// The 32-bit floating-point type.
pub fn Float() -> (r: IrType)
    ensures
        r == IrType::Float,
{
    IrType::Float
}

/// The 64-bit floating-point type.
pub fn Double() -> (r: IrType)
    ensures
        r == IrType::Double,
{
    IrType::Double
}

/// The 128-bit floating-point type.
pub fn FP128() -> (r: IrType)
    ensures
        r == IrType::FP128,
{
    IrType::FP128
}

/// The 80-bit x87 floating-point type.
pub fn X86FP80() -> (r: IrType)
    ensures
        r == IrType::X86FP80,
{
    IrType::X86FP80
}

/// The PowerPC double-double type.
pub fn PPCFP128() -> (r: IrType)
    ensures
        r == IrType::PPCFP128,
{
    IrType::PPCFP128
}

/// The MMX vector type.
pub fn X86MMX() -> (r: IrType)
    ensures
        r == IrType::X86MMX,
{
    IrType::X86MMX
}

/// The type of basic block labels.
pub fn Label() -> (r: IrType)
    ensures
        r == IrType::Label,
{
    IrType::Label
}

/// A pointer to bytes, in the default address space.
pub fn CharPointer() -> (r: IrType)
    ensures
        r == IrType::Pointer(Box::new(IrType::Int(8)), 0),
{
    PointerType(Int8(), 0)
}

/// A pointer to bytes, in the default address space.
pub fn Int8Pointer() -> (r: IrType)
    ensures
        r == IrType::Pointer(Box::new(IrType::Int(8)), 0),
{
    PointerType(Int8(), 0)
}

} // verus!
