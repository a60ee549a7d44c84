use vstd::prelude::*;

use crate::module::Module;
use crate::types::{FunctionType, FunctionTypeView, IrType};

verus! {

/// Position of a function in its module's function table.
#[derive(Clone, Copy, PartialEq, Eq, Structural, Debug)]
pub struct FunctionRef {
    pub index: usize,
}

/// Position of a basic block: its function, and its place in that function's body.
#[derive(Clone, Copy, PartialEq, Eq, Structural, Debug)]
pub struct BasicBlockRef {
    pub function: usize,
    pub index: usize,
}

/// A parameter of a function: its position and its type.
#[derive(Debug, PartialEq, Eq)]
pub struct Param {
    pub function: usize,
    pub index: u32,
    pub ty: IrType,
}

/// Why a handle could not be used.
#[derive(Clone, Copy, PartialEq, Eq, Structural, Debug)]
pub enum HandleError {
    /// The handle is the null reference that a failed lookup returns.
    Null,
    /// The handle does not name an entry of the module it was used with.
    Stale,
    /// The handle was wrapped without its signature, so type queries are unavailable.
    UnknownType,
    /// A parameter index at or past the parameter count.
    IndexOutOfRange,
}

/// A non-owning handle into a module's function table. It is either declared
/// through a module, and then knows its signature, or wrapped from a bare
/// reference, and then does not.
pub struct Function {
    llvm_function: Option<FunctionRef>,
    function_type: Option<FunctionType>,
}

impl Function {
    /// The function table entry this handle names; `None` for the null handle.
    pub closed spec fn handle(&self) -> Option<FunctionRef> {
        self.llvm_function
    }

    /// The signature this handle carries, if it is known.
    pub closed spec fn signature(&self) -> Option<FunctionTypeView> {
        match self.function_type {
            Some(t) => Some(t@),
            None => None,
        }
    }

    /// Declares `name` with `function_type` in `module` and returns its handle.
    /// Where `name` is already declared, the module is left as it is and the
    /// existing function is returned with its own signature: the new type is
    /// ignored.
    pub fn new(module: &mut Module, name: &str, function_type: FunctionType) -> (r: Function)
        requires
            old(module).wf(),
            old(module)@.functions.len() < usize::MAX,
        ensures
            final(module).wf(),
            Module::declared(old(module)@, name@) ==> *final(module) == *old(module),
            !Module::declared(old(module)@, name@) ==> final(module)@ == Module::with_function(
                old(module)@,
                name@,
                function_type@,
            ),
            r.handle() is Some,
            r.handle()->Some_0.index < final(module)@.functions.len(),
            final(module)@.functions[r.handle()->Some_0.index as int].name == name@,
            r.signature() == Some(final(module)@.functions[r.handle()->Some_0.index as int].ty),
    {
        match module.find(name) {
            Some(index) => Function::with_signature(index, module.signature_at(index)),
            None => {
                let copy = function_type.duplicate();
                let index = module.push_function(name, function_type);
                Function::with_signature(index, copy)
            },
        }
    }

    /// A handle on entry `index` whose signature is `function_type`.
    pub(crate) fn with_signature(index: usize, function_type: FunctionType) -> (r: Function)
        ensures
            r.handle() == Some(FunctionRef { index }),
            r.signature() == Some(function_type@),
    {
        Function { llvm_function: Some(FunctionRef { index }), function_type: Some(function_type) }
    }

    /// Wraps a bare reference, whose signature is not known; `None` is the null handle.
    pub fn from_ptr(func_ptr: Option<FunctionRef>) -> (r: Function)
        ensures
            r.handle() == func_ptr,
            r.signature() is None,
    {
        Function { llvm_function: func_ptr, function_type: None }
    }

    /// Adds a basic block labelled `name` at the end of this function's body.
    /// Labels are kept as given: blocks are told apart by their position.
    pub fn append_basic_block(&self, module: &mut Module, name: &str) -> (r: Result<
        BasicBlockRef,
        HandleError,
    >)
        requires
            old(module).wf(),
        ensures
            final(module).wf(),
            self.handle() is None ==> r == Err::<BasicBlockRef, HandleError>(HandleError::Null),
            self.handle() is Some && self.handle()->Some_0.index >= old(module)@.functions.len()
                ==> r == Err::<BasicBlockRef, HandleError>(HandleError::Stale),
            r is Err ==> *final(module) == *old(module),
            (self.handle() is Some && self.handle()->Some_0.index < old(module)@.functions.len())
                ==> {
                let i = self.handle()->Some_0.index;
                &&& r == Ok::<BasicBlockRef, HandleError>(
                    BasicBlockRef { function: i, index: old(module)@.functions[i as int].blocks.len() as usize },
                )
                &&& final(module)@ == Module::with_block(old(module)@, i as int, name@)
            },
    {
        match self.llvm_function {
            None => Err(HandleError::Null),
            Some(f) => {
                if f.index < module.function_count() {
                    let index = module.push_block(f.index, name);
                    Ok(BasicBlockRef { function: f.index, index })
                } else {
                    Err(HandleError::Stale)
                }
            },
        }
    }

    /// The reference this handle wraps; `None` for the null handle.
    pub fn as_ref(&self) -> (r: Option<FunctionRef>)
        ensures
            r == self.handle(),
    {
        self.llvm_function
    }

    /// Whether this is the null handle.
    pub fn is_null(&self) -> (r: bool)
        ensures
            r == (self.handle() is None),
    {
        self.llvm_function.is_none()
    }

    /// The parameter at `index`, checked against the signature.
    pub fn get_param(&self, index: u32) -> (r: Result<Param, HandleError>)
        ensures
            self.handle() is None ==> r == Err::<Param, HandleError>(HandleError::Null),
            self.handle() is Some && self.signature() is None ==> r == Err::<Param, HandleError>(
                HandleError::UnknownType,
            ),
            self.handle() is Some && self.signature() is Some ==> {
                let params = self.signature()->Some_0.params;
                &&& index >= params.len() ==> r == Err::<Param, HandleError>(
                    HandleError::IndexOutOfRange,
                )
                &&& index < params.len() ==> r == Ok::<Param, HandleError>(
                    Param {
                        function: self.handle()->Some_0.index,
                        index,
                        ty: params[index as int],
                    },
                )
            },
    {
        match (&self.llvm_function, &self.function_type) {
            (None, _) => Err(HandleError::Null),
            (Some(_), None) => Err(HandleError::UnknownType),
            (Some(f), Some(t)) => {
                if (index as usize) < t.params.len() {
                    Ok(Param { function: f.index, index, ty: t.params[index as usize].duplicate() })
                } else {
                    Err(HandleError::IndexOutOfRange)
                }
            },
        }
    }

    /// The number of parameters of the signature.
    pub fn params_count(&self) -> (r: Result<u32, HandleError>)
        ensures
            self.handle() is None ==> r == Err::<u32, HandleError>(HandleError::Null),
            self.handle() is Some && self.signature() is None ==> r == Err::<u32, HandleError>(
                HandleError::UnknownType,
            ),
            self.handle() is Some && self.signature() is Some ==> {
                let n = self.signature()->Some_0.params.len();
                &&& n <= u32::MAX ==> r == Ok::<u32, HandleError>(n as u32)
                &&& n > u32::MAX ==> r == Err::<u32, HandleError>(HandleError::IndexOutOfRange)
            },
    {
        match (&self.llvm_function, &self.function_type) {
            (None, _) => Err(HandleError::Null),
            (Some(_), None) => Err(HandleError::UnknownType),
            (Some(_), Some(t)) => {
                if t.params.len() <= u32::MAX as usize {
                    Ok(t.params.len() as u32)
                } else {
                    Err(HandleError::IndexOutOfRange)
                }
            },
        }
    }

    /// The signature, where this handle knows it.
    pub fn get_function_type(&self) -> (r: Option<FunctionType>)
        ensures
            r is None <==> self.signature() is None,
            r is Some ==> Some(r->Some_0@) == self.signature(),
    {
        match &self.function_type {
            None => None,
            Some(t) => Some(t.duplicate()),
        }
    }

    /// The return type of the signature, where this handle knows it.
    pub fn get_return_type(&self) -> (r: Option<IrType>)
        ensures
            r is None <==> self.signature() is None,
            r is Some ==> r->Some_0 == self.signature()->Some_0.ret,
    {
        match &self.function_type {
            None => None,
            Some(t) => Some(t.ret.duplicate()),
        }
    }

    /// The parameter types of the signature, in order, where this handle knows it.
    pub fn get_param_types(&self) -> (r: Option<Vec<IrType>>)
        ensures
            r is None <==> self.signature() is None,
            r is Some ==> r->Some_0@ == self.signature()->Some_0.params,
    {
        match &self.function_type {
            None => None,
            Some(t) => Some(t.duplicate().params),
        }
    }
}

} // verus!
