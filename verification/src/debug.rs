//! Which breakpoint instruction stops the processor in the debugger.

use vstd::prelude::*;

verus! {

/// The architecture that the code was built for.
#[derive(Debug, Clone, Copy, PartialEq, Eq, Structural)]
pub enum TargetArch {
    X86,
    X86_64,
    Aarch64,
    Other,
}

/// A breakpoint instruction.
#[derive(Debug, Clone, Copy, PartialEq, Eq, Structural)]
pub enum BreakInstruction {
    /// `int 3`, on x86 and x86_64.
    Int3,
    /// `brk #0xF000`, on aarch64, as MSVC's `__debugbreak` emits it.
    BrkF000,
}

/// The instruction that `dbg_break` executes on `arch`; `None` on an
/// architecture that has none, where `dbg_break` panics.
pub fn break_instruction(arch: TargetArch) -> (r: Option<BreakInstruction>)
    ensures
        r == match arch {
            TargetArch::X86 | TargetArch::X86_64 => Some(BreakInstruction::Int3),
            TargetArch::Aarch64 => Some(BreakInstruction::BrkF000),
            TargetArch::Other => None::<BreakInstruction>,
        },
{
    match arch {
        TargetArch::Aarch64 => Some(BreakInstruction::BrkF000),
        TargetArch::X86 | TargetArch::X86_64 => Some(BreakInstruction::Int3),
        TargetArch::Other => None,
    }
}

} // verus!
