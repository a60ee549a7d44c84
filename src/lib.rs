use vstd::prelude::*;

pub mod engine;
pub mod function;
#[allow(non_snake_case)]
pub mod LLVM;
pub mod module;
pub mod types;

pub use engine::{Engine, FuncallResult};
pub use function::Function;
pub use module::Module;

verus! {

/// The processors code can be emitted for.
#[derive(Clone, Copy, PartialEq, Eq, Structural, Debug)]
pub enum CPU {
    Native,
    X86_64,
    I686,
}

/// The name the code generator knows a processor by.
pub open spec fn cpu_name(cpu: CPU) -> Seq<char> {
    match cpu {
        CPU::Native => "native"@,
        CPU::X86_64 => "x86-64"@,
        CPU::I686 => "i686"@,
    }
}

impl CPU {
    /// The name the code generator knows this processor by.
    pub fn name(&self) -> (r: String)
        ensures
            r@ == cpu_name(*self),
    {
        match self {
            CPU::Native => "native".to_owned(),
            CPU::X86_64 => "x86-64".to_owned(),
            CPU::I686 => "i686".to_owned(),
        }
    }
}

/// Code generation optimization levels.
#[derive(Clone, Copy, PartialEq, Eq, Structural, Debug)]
pub enum CodegenLevel {
    O0,
    O1,
    O2,
    O3,
}

/// The code generator's level number: none, less, default, aggressive.
pub open spec fn level_number(level: CodegenLevel) -> u32 {
    match level {
        CodegenLevel::O0 => 0,
        CodegenLevel::O1 => 1,
        CodegenLevel::O2 => 2,
        CodegenLevel::O3 => 3,
    }
}

impl CodegenLevel {
    /// The code generator's level number: none, less, default, aggressive.
    pub fn number(&self) -> (r: u32)
        ensures
            r == level_number(*self),
    {
        match self {
            CodegenLevel::O0 => 0,
            CodegenLevel::O1 => 1,
            CodegenLevel::O2 => 2,
            CodegenLevel::O3 => 3,
        }
    }
}

} // verus!
