use vstd::prelude::*;

pub mod Const;
pub mod Type;

use crate::{cpu_name, level_number, CodegenLevel, CPU};

verus! {

/// How a target machine is configured for emission: processor, features,
/// optimization level and output path. Relocation and code model are the
/// back end's defaults, and the output is a relocatable object file.
pub struct TargetOptions {
    pub cpu: String,
    pub features: String,
    pub opt_level: u32,
    pub output: String,
}

/// The target machine configuration for emitting to `out` for `cpu` at `opt_level`.
pub fn target_options(opt_level: CodegenLevel, out: String, cpu: CPU) -> (r: TargetOptions)
    ensures
        r.cpu@ == cpu_name(cpu),
        r.features@.len() == 0,
        r.opt_level == level_number(opt_level),
        r.output == out,
{
    TargetOptions { cpu: cpu.name(), features: String::new(), opt_level: opt_level.number(), output: out }
}

/// The outcome of an emission: the back end's message where it failed.
pub fn emit_result(failed: bool, message: String) -> (r: Result<(), String>)
    ensures
        failed ==> r == Err::<(), String>(message),
        !failed ==> r is Ok,
{
    if failed {
        Err(message)
    } else {
        Ok(())
    }
}

pub open spec fn target_message() -> Seq<char> {
    "Could not initialise target"@
}

pub open spec fn printer_message() -> Seq<char> {
    "Could not initialise ASM Printer"@
}

/// The outcome of the native back end's set-up, from the status of its two
/// steps (zero is success); the target is set up first.
pub fn initialize_result(target_status: i32, printer_status: i32) -> (r: Result<(), String>)
    ensures
        target_status != 0 ==> r is Err && r->Err_0@ == target_message(),
        target_status == 0 && printer_status != 0 ==> r is Err && r->Err_0@ == printer_message(),
        target_status == 0 && printer_status == 0 ==> r is Ok,
{
    if target_status != 0 {
        Err("Could not initialise target".to_owned())
    } else if printer_status != 0 {
        Err("Could not initialise ASM Printer".to_owned())
    } else {
        Ok(())
    }
}

} // verus!
