use vstd::prelude::*;

use crate::call::Step;
use crate::value::Param;

verus! {

/// Byte `k` of the little-endian encoding of `v`.
pub open spec fn le_byte(v: int, k: int) -> u8
    decreases k,
{
    if k <= 0 {
        (v % 256) as u8
    } else {
        le_byte(v / 256, k - 1)
    }
}

/// Guest memory after one planned step, for the given call arguments.
/// Memory is a byte at every address; register steps leave it as it is.
pub open spec fn step_effect(mem: spec_fn(int) -> u8, step: Step, ps: Seq<Param>) -> spec_fn(
    int,
) -> u8 {
    |x: int|
        match step {
            Step::MapPages(m) => if m.addr <= x < m.addr + m.len {
                0u8
            } else {
                mem(x)
            },
            Step::CopyParam { addr, index } => match ps[index as int] {
                Param::HeapData(d) => if addr <= x < addr + d@.len() {
                    d@[x - addr]
                } else {
                    mem(x)
                },
                _ => mem(x),
            },
            Step::Fill { addr, byte, len } => if addr <= x < addr + len {
                byte
            } else {
                mem(x)
            },
            Step::WriteU32 { addr, value } => if addr <= x < addr + 4 {
                le_byte(value as int, x - addr)
            } else {
                mem(x)
            },
            Step::WriteU64 { addr, value } => if addr <= x < addr + 8 {
                le_byte(value as int, x - addr)
            } else {
                mem(x)
            },
            Step::SetReg { .. } => mem(x),
        }
}

/// Guest memory after performing `steps` in order.
pub open spec fn run_steps(mem: spec_fn(int) -> u8, steps: Seq<Step>, ps: Seq<Param>) -> spec_fn(
    int,
) -> u8
    decreases steps.len(),
{
    if steps.len() == 0 {
        mem
    } else {
        step_effect(run_steps(mem, steps.drop_last(), ps), steps.last(), ps)
    }
}

/// The addresses a step writes.
pub open spec fn writes_at(step: Step, ps: Seq<Param>, x: int) -> bool {
    match step {
        Step::MapPages(m) => m.addr <= x < m.addr + m.len,
        Step::CopyParam { addr, index } => match ps[index as int] {
            Param::HeapData(d) => addr <= x < addr + d@.len(),
            _ => false,
        },
        Step::Fill { addr, len, .. } => addr <= x < addr + len,
        Step::WriteU32 { addr, .. } => addr <= x < addr + 4,
        Step::WriteU64 { addr, .. } => addr <= x < addr + 8,
        Step::SetReg { .. } => false,
    }
}

pub proof fn lemma_step_elsewhere(mem: spec_fn(int) -> u8, step: Step, ps: Seq<Param>, x: int)
    requires
        !writes_at(step, ps, x),
    ensures
        step_effect(mem, step, ps)(x) == mem(x),
{
}

} // verus!
