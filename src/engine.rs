use vstd::prelude::*;

use crate::function::{Function, FunctionRef};
use crate::module::{module_diag, Module};

verus! {

/// How an engine runs code: by interpretation, or by generating native code.
#[derive(Clone, Copy, PartialEq, Eq, Structural, Debug)]
pub enum EngineKind {
    Interpreter,
    Jit,
}

/// Why a call could not be made through an engine.
#[derive(Clone, Copy, PartialEq, Eq, Structural, Debug)]
pub enum CallError {
    /// The function handle is the null reference.
    Null,
    /// The function handle does not name a function of the bound module.
    Stale,
    /// The number of arguments differs from the parameter count of a fixed-arity signature.
    ArgumentCount,
}

/// An execution backend bound, at construction, to one verified module.
/// It holds the backend's own handle, zero until the backend has been created.
pub struct Engine {
    kind: EngineKind,
    bound_functions: usize,
    llvm_execute_engine: u64,
}

/// What one execution returned, as the integer it converts to.
pub struct FuncallResult {
    value: u64,
}

impl Engine {
    pub closed spec fn kind(&self) -> EngineKind {
        self.kind
    }

    /// How many functions the bound module had when the engine was made.
    pub closed spec fn bound_functions(&self) -> nat {
        self.bound_functions as nat
    }

    /// The backend's handle.
    pub closed spec fn native(&self) -> u64 {
        self.llvm_execute_engine
    }

    /// Binds an engine of `kind` to `module`, which must verify.
    fn bind(module: &Module, kind: EngineKind) -> (r: Result<Engine, String>)
        ensures
            module_diag(module@) is Some ==> r is Err && r->Err_0@ == module_diag(module@)->Some_0,
            module_diag(module@) is None ==> r is Ok && r->Ok_0.kind() == kind
                && r->Ok_0.bound_functions() == module@.functions.len() && r->Ok_0.native() == 0,
    {
        match module.verify() {
            Err(msg) => Err(msg),
            Ok(()) => Ok(Engine { kind, bound_functions: module.function_count(), llvm_execute_engine: 0 }),
        }
    }

    /// An interpreter bound to `module`; the verification message where `module` does not verify.
    pub fn create_interpreter(module: &Module) -> (r: Result<Engine, String>)
        ensures
            module_diag(module@) is Some ==> r is Err && r->Err_0@ == module_diag(module@)->Some_0,
            module_diag(module@) is None ==> r is Ok && r->Ok_0.kind() == EngineKind::Interpreter
                && r->Ok_0.bound_functions() == module@.functions.len() && r->Ok_0.native() == 0,
    {
        Self::bind(module, EngineKind::Interpreter)
    }

    /// A native-code engine bound to `module`; the verification message where `module` does not verify.
    pub fn create_jit_engine(module: &Module) -> (r: Result<Engine, String>)
        ensures
            module_diag(module@) is Some ==> r is Err && r->Err_0@ == module_diag(module@)->Some_0,
            module_diag(module@) is None ==> r is Ok && r->Ok_0.kind() == EngineKind::Jit
                && r->Ok_0.bound_functions() == module@.functions.len() && r->Ok_0.native() == 0,
    {
        Self::bind(module, EngineKind::Jit)
    }

    /// Records what the backend's creation gave: its handle on success, its
    /// message on failure.
    pub fn attach(self, created: bool, native: u64, message: String) -> (r: Result<Engine, String>)
        ensures
            !created ==> r is Err && r->Err_0 == message,
            created ==> r is Ok && r->Ok_0.native() == native && r->Ok_0.kind() == self.kind()
                && r->Ok_0.bound_functions() == self.bound_functions(),
    {
        if created {
            Ok(Engine { llvm_execute_engine: native, ..self })
        } else {
            Err(message)
        }
    }

    /// The backend's handle.
    pub fn as_ref(&self) -> (r: u64)
        ensures
            r == self.native(),
    {
        self.llvm_execute_engine
    }

    /// How the engine runs code.
    pub fn engine_kind(&self) -> (r: EngineKind)
        ensures
            r == self.kind(),
    {
        self.kind
    }

    /// Checks a call of `function` with `arg_count` arguments before it is run:
    /// the handle must name a function of the bound module, and a fixed-arity
    /// signature, where the handle knows it, must take that many arguments.
    pub fn prepare_call(&self, function: &Function, arg_count: usize) -> (r: Result<FunctionRef, CallError>)
        ensures
            function.handle() is None ==> r == Err::<FunctionRef, CallError>(CallError::Null),
            function.handle() is Some && function.handle()->Some_0.index >= self.bound_functions()
                ==> r == Err::<FunctionRef, CallError>(CallError::Stale),
            function.handle() is Some && function.handle()->Some_0.index < self.bound_functions() ==> {
                let wrong_arity = function.signature() is Some && !function.signature()->Some_0.variadic
                    && function.signature()->Some_0.params.len() != arg_count;
                &&& wrong_arity ==> r == Err::<FunctionRef, CallError>(CallError::ArgumentCount)
                &&& !wrong_arity ==> r == Ok::<FunctionRef, CallError>(function.handle()->Some_0)
            },
    {
        match function.as_ref() {
            None => Err(CallError::Null),
            Some(f) => {
                if f.index >= self.bound_functions {
                    return Err(CallError::Stale);
                }
                match function.get_function_type() {
                    Some(t) => {
                        if !t.variadic && t.params.len() != arg_count {
                            Err(CallError::ArgumentCount)
                        } else {
                            Ok(f)
                        }
                    },
                    None => Ok(f),
                }
            },
        }
    }
}

impl FuncallResult {
    pub closed spec fn value(&self) -> u64 {
        self.value
    }

    /// Wraps the integer value of one execution's result.
    pub fn new(val: u64) -> (r: FuncallResult)
        ensures
            r.value() == val,
    {
        FuncallResult { value: val }
    }

    /// The result as an unsigned integer.
    pub fn to_int(&self) -> (r: u64)
        ensures
            r == self.value(),
    {
        self.value
    }
}

impl Module {
    /// An interpreter bound to this module.
    pub fn create_interpreter(&self) -> (r: Result<Engine, String>)
        ensures
            module_diag(self@) is Some ==> r is Err && r->Err_0@ == module_diag(self@)->Some_0,
            module_diag(self@) is None ==> r is Ok && r->Ok_0.kind() == EngineKind::Interpreter
                && r->Ok_0.bound_functions() == self@.functions.len() && r->Ok_0.native() == 0,
    {
        Engine::create_interpreter(self)
    }

    /// A native-code engine bound to this module.
    pub fn create_jit_engine(&self) -> (r: Result<Engine, String>)
        ensures
            module_diag(self@) is Some ==> r is Err && r->Err_0@ == module_diag(self@)->Some_0,
            module_diag(self@) is None ==> r is Ok && r->Ok_0.kind() == EngineKind::Jit
                && r->Ok_0.bound_functions() == self@.functions.len() && r->Ok_0.native() == 0,
    {
        Engine::create_jit_engine(self)
    }
}

} // verus!
