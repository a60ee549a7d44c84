use llvm_wrapper::engine::{CallError, EngineKind};
use llvm_wrapper::function::FunctionRef;
use llvm_wrapper::types::FunctionType;
use llvm_wrapper::LLVM::Type;
use llvm_wrapper::{Engine, FuncallResult, Function, Module};

#[test]
fn result_converts_to_its_integer() {
    for k in [0u64, 1, 42, 4294967295] {
        assert_eq!(FuncallResult::new(k).to_int(), k);
    }
}

#[test]
fn jit_on_void_main_accepts_call() {
    let mut m = Module::new("m");
    let main = m.add_function("main", FunctionType::new(Type::Void(), vec![], false));
    main.append_basic_block(&mut m, "entry").unwrap();
    assert_eq!(m.verify(), Ok(()));
    let engine = m.create_jit_engine().unwrap();
    assert_eq!(engine.engine_kind(), EngineKind::Jit);
    assert_eq!(engine.as_ref(), 0);
    assert_eq!(engine.prepare_call(&main, 0), Ok(FunctionRef { index: 0 }));
}

#[test]
fn interpreter_refuses_unverified_module() {
    let mut m = Module::new("m");
    m.add_function("f", FunctionType::new(Type::Label(), vec![], false));
    let r = m.create_interpreter();
    assert_eq!(r.err(), Some("Function return type must be void or first-class".to_string()));
    assert!(Engine::create_jit_engine(&m).is_err());
}

#[test]
fn prepare_call_checks_handle_and_arity() {
    let mut m = Module::new("m");
    let f = m.add_function("f", FunctionType::new(Type::Int32(), vec![Type::Int32()], false));
    let v = m.add_function("v", FunctionType::new(Type::Int32(), vec![Type::Int32()], true));
    let engine = Engine::create_interpreter(&m).unwrap();
    assert_eq!(engine.engine_kind(), EngineKind::Interpreter);
    assert_eq!(engine.prepare_call(&f, 1), Ok(FunctionRef { index: 0 }));
    assert_eq!(engine.prepare_call(&f, 0), Err(CallError::ArgumentCount));
    assert_eq!(engine.prepare_call(&v, 3), Ok(FunctionRef { index: 1 }));
    assert_eq!(engine.prepare_call(&Function::from_ptr(None), 0), Err(CallError::Null));
    let later = m.add_function("later", FunctionType::new(Type::Void(), vec![], false));
    assert_eq!(engine.prepare_call(&later, 0), Err(CallError::Stale));
    let bare = Function::from_ptr(Some(FunctionRef { index: 0 }));
    assert_eq!(engine.prepare_call(&bare, 5), Ok(FunctionRef { index: 0 }));
}

#[test]
fn attach_records_backend_outcome() {
    let m = Module::new("m");
    let e = m.create_interpreter().unwrap();
    let attached = e.attach(true, 99, String::new()).unwrap();
    assert_eq!(attached.as_ref(), 99);
    assert_eq!(attached.engine_kind(), EngineKind::Interpreter);
    let e2 = m.create_interpreter().unwrap();
    let failed = e2.attach(false, 0, "no interpreter".to_string());
    assert_eq!(failed.err(), Some("no interpreter".to_string()));
}
