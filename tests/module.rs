use llvm_wrapper::function::{BasicBlockRef, FunctionRef, HandleError, Param};
use llvm_wrapper::module::GlobalRef;
use llvm_wrapper::types::{FunctionType, IrType};
use llvm_wrapper::LLVM::{Const, Type};
use llvm_wrapper::{Function, Module};

fn sig(ret: IrType, params: Vec<IrType>) -> FunctionType {
    FunctionType::new(ret, params, false)
}

#[test]
fn add_then_lookup_gives_signature() {
    let mut m = Module::new("m");
    let f = m.add_function("sum", sig(Type::Int32(), vec![Type::Int32(), Type::Int64()]));
    assert_eq!(f.as_ref(), Some(FunctionRef { index: 0 }));
    let g = m.named_function("sum");
    assert_eq!(g.as_ref(), Some(FunctionRef { index: 0 }));
    let t = g.get_function_type().unwrap();
    assert_eq!(t, sig(IrType::Int(32), vec![IrType::Int(32), IrType::Int(64)]));
    assert_eq!(g.get_return_type(), Some(IrType::Int(32)));
    assert_eq!(g.get_param_types(), Some(vec![IrType::Int(32), IrType::Int(64)]));
    assert_eq!(g.params_count(), Ok(2));
}

#[test]
fn add_keeps_insertion_order() {
    let mut m = Module::new("m");
    let a = m.add_function("a", sig(Type::Void(), vec![]));
    let b = m.add_function("b", sig(Type::Void(), vec![]));
    assert_eq!(a.as_ref(), Some(FunctionRef { index: 0 }));
    assert_eq!(b.as_ref(), Some(FunctionRef { index: 1 }));
    assert_eq!(m.function_count(), 2);
}

#[test]
fn add_existing_name_keeps_first_signature() {
    let mut m = Module::new("m");
    m.add_function("f", sig(Type::Int8(), vec![]));
    let again = m.add_function("f", sig(Type::Int64(), vec![Type::Int1()]));
    assert_eq!(m.function_count(), 1);
    assert_eq!(again.as_ref(), Some(FunctionRef { index: 0 }));
    assert_eq!(again.get_return_type(), Some(IrType::Int(8)));
}

#[test]
fn verify_twice_gives_same_outcome() {
    let mut m = Module::new("m");
    m.add_function("f", sig(Type::Void(), vec![]));
    assert_eq!(m.verify(), Ok(()));
    assert_eq!(m.verify(), Ok(()));
    m.add_function("bad", sig(Type::Label(), vec![]));
    let first = m.verify();
    let second = m.verify();
    assert!(first.is_err());
    assert_eq!(first, second);
}

#[test]
fn get_or_add_twice_is_same_function() {
    let mut m = Module::new("m");
    let a = m.get_or_add_function("g", sig(Type::Int32(), vec![]));
    let b = m.get_or_add_function("g", sig(Type::Double(), vec![Type::Float()]));
    assert_eq!(a.as_ref(), b.as_ref());
    assert_eq!(m.function_count(), 1);
    assert_eq!(b.get_return_type(), Some(IrType::Int(32)));
}

#[test]
fn lookup_missing_is_null() {
    let m = Module::new("m");
    let f = m.named_function("does_not_exist");
    assert!(f.is_null());
    assert_eq!(f.as_ref(), None);
    assert_eq!(f.get_function_type(), None);
    assert_eq!(f.get_return_type(), None);
    assert_eq!(f.get_param_types(), None);
    assert_eq!(f.get_param(0), Err(HandleError::Null));
    assert_eq!(f.params_count(), Err(HandleError::Null));
}

#[test]
fn void_main_with_entry_block_verifies() {
    let mut m = Module::new("m");
    let main = m.add_function("main", sig(Type::Void(), vec![]));
    let entry = main.append_basic_block(&mut m, "entry");
    assert_eq!(entry, Ok(BasicBlockRef { function: 0, index: 0 }));
    assert_eq!(m.verify(), Ok(()));
    let next = main.append_basic_block(&mut m, "exit");
    assert_eq!(next, Ok(BasicBlockRef { function: 0, index: 1 }));
}

#[test]
fn append_block_through_bad_handles() {
    let mut m = Module::new("m");
    let null = Function::from_ptr(None);
    assert_eq!(null.append_basic_block(&mut m, "entry"), Err(HandleError::Null));
    let stale = Function::from_ptr(Some(FunctionRef { index: 3 }));
    assert_eq!(stale.append_basic_block(&mut m, "entry"), Err(HandleError::Stale));
}

#[test]
fn bare_handle_has_no_type() {
    let f = Function::from_ptr(Some(FunctionRef { index: 0 }));
    assert!(!f.is_null());
    assert_eq!(f.get_function_type(), None);
    assert_eq!(f.get_param(0), Err(HandleError::UnknownType));
    assert_eq!(f.params_count(), Err(HandleError::UnknownType));
}

#[test]
fn get_param_checks_bounds() {
    let mut m = Module::new("m");
    let f = m.add_function("f", sig(Type::Void(), vec![Type::Int16(), Type::Int8Pointer()]));
    assert_eq!(f.get_param(0), Ok(Param { function: 0, index: 0, ty: IrType::Int(16) }));
    assert_eq!(
        f.get_param(1),
        Ok(Param { function: 0, index: 1, ty: IrType::Pointer(Box::new(IrType::Int(8)), 0) })
    );
    assert_eq!(f.get_param(2), Err(HandleError::IndexOutOfRange));
}

#[test]
fn verify_rejects_label_return() {
    let mut m = Module::new("m");
    m.add_function("f", sig(Type::Label(), vec![]));
    assert_eq!(m.verify(), Err("Function return type must be void or first-class".to_string()));
}

#[test]
fn verify_rejects_void_parameter() {
    let mut m = Module::new("m");
    m.add_function("f", sig(Type::Int32(), vec![Type::Int32(), Type::Void()]));
    assert_eq!(m.verify(), Err("Function arguments must have first-class types".to_string()));
}

#[test]
fn verify_reports_first_violation() {
    let mut m = Module::new("m");
    m.add_function("f", sig(Type::Int32(), vec![Type::Label()]));
    m.add_function("g", sig(Type::Label(), vec![]));
    assert_eq!(m.verify(), Err("Function arguments must have first-class types".to_string()));
}

#[test]
fn verify_rejects_void_global() {
    let mut m = Module::new("m");
    m.add_global(Type::Void(), "g");
    assert_eq!(m.verify(), Err("Global variables must have a first-class type".to_string()));
}

#[test]
fn verify_checks_initializer_type() {
    let mut m = Module::new("m");
    let g = m.add_global(Type::Int32(), "g");
    assert_eq!(g, GlobalRef { index: 0 });
    assert_eq!(m.set_initializer(g, Const::UInt32(7)), Ok(()));
    assert_eq!(m.verify(), Ok(()));
    assert_eq!(m.set_initializer(g, Const::UInt64(7)), Ok(()));
    assert_eq!(
        m.verify(),
        Err("Global variable initializer type does not match global variable type".to_string())
    );
}

#[test]
fn set_initializer_on_stale_global() {
    let mut m = Module::new("m");
    assert_eq!(m.set_initializer(GlobalRef { index: 0 }, Const::SInt8(1)), Err(HandleError::Stale));
    assert_eq!(m.global_count(), 0);
}

#[test]
fn module_in_context_keeps_name_and_context() {
    let m = Module::new_in_context("ctx_mod", 17);
    assert_eq!(m.as_ref(), "ctx_mod");
    assert_eq!(m.context(), Some(17));
    let g = Module::new("plain");
    assert_eq!(g.context(), None);
}
