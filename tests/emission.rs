use llvm_wrapper::types::{Constant, IrType};
use llvm_wrapper::LLVM::{emit_result, initialize_result, target_options, Const, Type};
use llvm_wrapper::{CodegenLevel, CPU};

#[test]
fn cpu_names() {
    assert_eq!(CPU::Native.name(), "native");
    assert_eq!(CPU::X86_64.name(), "x86-64");
    assert_eq!(CPU::I686.name(), "i686");
}

#[test]
fn codegen_level_numbers() {
    assert_eq!(CodegenLevel::O0.number(), 0);
    assert_eq!(CodegenLevel::O1.number(), 1);
    assert_eq!(CodegenLevel::O2.number(), 2);
    assert_eq!(CodegenLevel::O3.number(), 3);
}

#[test]
fn native_o0_target_options() {
    let t = target_options(CodegenLevel::O0, "out.o".to_string(), CPU::Native);
    assert_eq!(t.cpu, "native");
    assert_eq!(t.features, "");
    assert_eq!(t.opt_level, 0);
    assert_eq!(t.output, "out.o");
    let t3 = target_options(CodegenLevel::O3, "x.o".to_string(), CPU::I686);
    assert_eq!(t3.cpu, "i686");
    assert_eq!(t3.opt_level, 3);
}

#[test]
fn emission_outcome() {
    assert_eq!(emit_result(false, String::new()), Ok(()));
    assert_eq!(
        emit_result(true, "could not open file".to_string()),
        Err("could not open file".to_string())
    );
}

#[test]
fn initialization_outcome() {
    assert_eq!(initialize_result(0, 0), Ok(()));
    assert_eq!(initialize_result(1, 0), Err("Could not initialise target".to_string()));
    assert_eq!(initialize_result(1, 1), Err("Could not initialise target".to_string()));
    assert_eq!(initialize_result(0, 1), Err("Could not initialise ASM Printer".to_string()));
}

#[test]
fn type_builders() {
    assert_eq!(Type::Int(24), IrType::Int(24));
    assert_eq!(Type::Int1(), IrType::Int(1));
    assert_eq!(Type::Int128(), IrType::Int(128));
    assert_eq!(Type::CharPointer(), IrType::Pointer(Box::new(IrType::Int(8)), 0));
    assert_eq!(Type::Pointer(Type::Double(), 2), IrType::Pointer(Box::new(IrType::Double), 2));
    assert_eq!(Type::Label(), IrType::Label);
    assert_eq!(Type::X86MMX(), IrType::X86MMX);
}

#[test]
fn constant_builders() {
    assert_eq!(Const::SInt(12, 5), Constant { ty: IrType::Int(12), val: 5, sign_extend: true });
    assert_eq!(Const::UInt16(65535), Constant { ty: IrType::Int(16), val: 65535, sign_extend: false });
    assert_eq!(Const::SInt128(u64::MAX), Constant { ty: IrType::Int(128), val: u64::MAX, sign_extend: true });
    assert_eq!(Const::UInt1(1), Constant { ty: IrType::Int(1), val: 1, sign_extend: false });
}
