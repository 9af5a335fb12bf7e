use vstd::prelude::*;

use crate::error::CallError;
use crate::value::{Param, Return, int_rank, float_rank};

verus! {

/// The instruction-set architectures with a modeled calling convention.
#[derive(Clone, Copy, Debug, PartialEq, Eq, Structural)]
pub enum Arch {
    /// 32-bit x86, cdecl-like: everything on the stack.
    X86,
    /// x86-64 System V, register subset.
    X86_64,
    /// 32-bit ARM AAPCS, one argument register.
    Arm,
    /// 64-bit ARM AAPCS64, register subset.
    Aarch64,
}

/// An architectural register that the modeled conventions use.
#[derive(Clone, Copy, Debug, PartialEq, Eq, Hash, Structural)]
pub enum Reg {
    /// x86: result register.
    Eax,
    /// x86: stack pointer.
    Esp,
    /// x86-64: integer result register.
    Rax,
    /// x86-64: stack pointer.
    Rsp,
    /// x86-64: integer argument registers, in argument order.
    Rdi,
    Rsi,
    Rdx,
    Rcx,
    R8,
    R9,
    /// x86-64: low 64-bit lane of a vector register.
    Xmm(u8),
    /// ARM: first argument and result register.
    R0,
    /// ARM: link register.
    Lr,
    /// ARM and AArch64: stack pointer.
    Sp,
    /// AArch64: 64-bit general-purpose register; `X(30)` is the link register.
    X(u8),
    /// AArch64: 64-bit floating-point register.
    D(u8),
    /// AArch64: 32-bit floating-point register.
    S(u8),
}

/// Smallest stack, in bytes, that a call runs with.
pub const MIN_STACK: u64 = 0x1000;

/// Integer arguments that travel in registers; `None` where all of them go on
/// the stack.
pub open spec fn int_slots(arch: Arch) -> Option<int> {
    match arch {
        Arch::X86 => None,
        Arch::X86_64 => Some(6),
        Arch::Arm => Some(1),
        Arch::Aarch64 => Some(8),
    }
}

/// Floating-point arguments that travel in registers.
pub open spec fn float_slots(arch: Arch) -> int {
    match arch {
        Arch::X86 => 0,
        Arch::X86_64 => 8,
        Arch::Arm => 0,
        Arch::Aarch64 => 8,
    }
}

/// The register of the `k`-th integer argument.
pub open spec fn int_arg_reg(arch: Arch, k: int) -> Reg {
    match arch {
        Arch::X86_64 => if k == 0 {
            Reg::Rdi
        } else if k == 1 {
            Reg::Rsi
        } else if k == 2 {
            Reg::Rdx
        } else if k == 3 {
            Reg::Rcx
        } else if k == 4 {
            Reg::R8
        } else {
            Reg::R9
        },
        Arch::Aarch64 => Reg::X(k as u8),
        _ => Reg::R0,
    }
}

/// The register of the `k`-th floating-point argument.
pub open spec fn float_arg_reg(arch: Arch, k: int, single: bool) -> Reg {
    match arch {
        Arch::Aarch64 => if single {
            Reg::S(k as u8)
        } else {
            Reg::D(k as u8)
        },
        _ => Reg::Xmm(k as u8),
    }
}

/// The stack pointer register.
pub open spec fn sp_reg(arch: Arch) -> Reg {
    match arch {
        Arch::X86 => Reg::Esp,
        Arch::X86_64 => Reg::Rsp,
        _ => Reg::Sp,
    }
}

/// Stack bytes that a call with `n` arguments uses below the stack top.
pub open spec fn stack_need(arch: Arch, n: int) -> int {
    match arch {
        Arch::X86 => 4 * (n + 1),
        Arch::X86_64 => 8,
        _ => 0,
    }
}

/// Stack bytes that a call with `n` arguments asks the arena for.
pub open spec fn stack_request(arch: Arch, n: int) -> int {
    if stack_need(arch, n) < MIN_STACK {
        MIN_STACK as int
    } else {
        stack_need(arch, n)
    }
}

/// Whether the convention decodes this declared result.
pub open spec fn result_supported(arch: Arch, r: Return) -> bool {
    match arch {
        Arch::X86 | Arch::Arm => r is Usize || r is CString,
        _ => true,
    }
}

/// The register a declared result is read from.
pub open spec fn result_reg(arch: Arch, r: Return) -> Reg {
    match arch {
        Arch::X86 => Reg::Eax,
        Arch::X86_64 => if r is F32 || r is F64 {
            Reg::Xmm(0)
        } else {
            Reg::Rax
        },
        Arch::Arm => Reg::R0,
        Arch::Aarch64 => if r is F32 {
            Reg::S(0)
        } else if r is F64 {
            Reg::D(0)
        } else {
            Reg::X(0)
        },
    }
}

/// Why the convention cannot place these arguments and results, if it cannot:
/// a floating-point argument where no floating-point slot exists, or a second
/// argument on 32-bit ARM, whose modeled subset has only the first slot, is an
/// unsupported shape; then more arguments of one class than the register
/// sequence holds is too many; then more than one result or a result type it
/// does not decode is an unsupported shape.
pub open spec fn shape_error(arch: Arch, ps: Seq<Param>, rs: Seq<Return>) -> Option<CallError> {
    let n = ps.len() as int;
    if (float_slots(arch) == 0 && float_rank(ps, n) > 0) || (arch == Arch::Arm && int_rank(ps, n)
        > 1) {
        Some(CallError::UnsupportedShape)
    } else if float_rank(ps, n) > float_slots(arch) || (int_slots(arch) is Some && int_rank(ps, n)
        > int_slots(arch)->0) {
        Some(CallError::TooManyArguments)
    } else if rs.len() > 1 || (rs.len() == 1 && !result_supported(arch, rs[0])) {
        Some(CallError::UnsupportedShape)
    } else {
        None
    }
}

pub fn int_arg_reg_of(arch: Arch, k: usize) -> (r: Reg)
    requires
        int_slots(arch) is Some ==> k < int_slots(arch)->0,
    ensures
        r == int_arg_reg(arch, k as int),
{
    match arch {
        Arch::X86_64 => if k == 0 {
            Reg::Rdi
        } else if k == 1 {
            Reg::Rsi
        } else if k == 2 {
            Reg::Rdx
        } else if k == 3 {
            Reg::Rcx
        } else if k == 4 {
            Reg::R8
        } else {
            Reg::R9
        },
        Arch::Aarch64 => Reg::X(k as u8),
        _ => Reg::R0,
    }
}

pub fn float_arg_reg_of(arch: Arch, k: usize, single: bool) -> (r: Reg)
    requires
        k < float_slots(arch),
    ensures
        r == float_arg_reg(arch, k as int, single),
{
    match arch {
        Arch::Aarch64 => if single {
            Reg::S(k as u8)
        } else {
            Reg::D(k as u8)
        },
        _ => Reg::Xmm(k as u8),
    }
}

pub fn sp_reg_of(arch: Arch) -> (r: Reg)
    ensures
        r == sp_reg(arch),
{
    match arch {
        Arch::X86 => Reg::Esp,
        Arch::X86_64 => Reg::Rsp,
        _ => Reg::Sp,
    }
}

/// The register that a declared result is read from after the call.
pub fn result_reg_of(arch: Arch, r: &Return) -> (reg: Reg)
    ensures
        reg == result_reg(arch, *r),
{
    match arch {
        Arch::X86 => Reg::Eax,
        Arch::X86_64 => match r {
            Return::F32(_) | Return::F64(_) => Reg::Xmm(0),
            _ => Reg::Rax,
        },
        Arch::Arm => Reg::R0,
        Arch::Aarch64 => match r {
            Return::F32(_) => Reg::S(0),
            Return::F64(_) => Reg::D(0),
            _ => Reg::X(0),
        },
    }
}

/// Checks that the convention can place `params` and decode `results`, and
/// says why not otherwise.
pub fn check_shape(arch: Arch, params: &Vec<Param>, results: &Vec<Return>) -> (r: Result<
    (),
    CallError,
>)
    ensures
        match shape_error(arch, params@, results@) {
            Some(e) => r == Err::<(), CallError>(e),
            None => r is Ok,
        },
{
    let n = params.len();
    let mut ints: usize = 0;
    let mut floats: usize = 0;
    let mut i: usize = 0;
    while i < n
        invariant
            n == params@.len(),
            i <= n,
            ints == int_rank(params@, i as int),
            floats == float_rank(params@, i as int),
            ints + floats == i,
        decreases n - i,
    {
        match &params[i] {
            Param::F32(_) | Param::F64(_) => {
                floats = floats + 1;
            },
            _ => {
                ints = ints + 1;
            },
        }
        i = i + 1;
    }
    let float_cap: usize = match arch {
        Arch::X86 | Arch::Arm => 0,
        _ => 8,
    };
    if (float_cap == 0 && floats > 0) || (arch == Arch::Arm && ints > 1) {
        return Err(CallError::UnsupportedShape);
    }
    let too_many_ints = match arch {
        Arch::X86 => false,
        Arch::X86_64 => ints > 6,
        Arch::Arm => ints > 1,
        Arch::Aarch64 => ints > 8,
    };
    if floats > float_cap || too_many_ints {
        return Err(CallError::TooManyArguments);
    }
    if results.len() > 1 {
        return Err(CallError::UnsupportedShape);
    }
    if results.len() == 1 {
        let supported = match arch {
            Arch::X86 | Arch::Arm => match &results[0] {
                Return::Usize(_) | Return::CString(_) => true,
                _ => false,
            },
            _ => true,
        };
        if !supported {
            return Err(CallError::UnsupportedShape);
        }
    }
    Ok(())
}

} // verus!
