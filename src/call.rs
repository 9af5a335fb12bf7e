use vstd::prelude::*;

use crate::abi::{
    Arch, Reg, check_shape, float_arg_reg, float_arg_reg_of, float_slots, int_arg_reg, int_arg_reg_of,
    int_slots, shape_error, sp_reg, sp_reg_of, stack_need, stack_request, MIN_STACK,
};
use crate::arena::{Arena, Mapping, committed_after, lemma_round_up, round_up};
use crate::error::{CallError, Region};
use crate::value::{
    Param, Return, float_rank, heap_total, int_rank, lemma_prefix_monotone, lemma_prefix_nonneg,
};

verus! {

/// One effect on the emulated machine that a planned call needs, in order.
#[derive(Clone, Copy, Debug, PartialEq, Eq, Structural)]
pub enum Step {
    /// Map zero-filled, readable and writable pages.
    MapPages(Mapping),
    /// Write the bytes of the `HeapData` argument at `index` at `addr`.
    CopyParam { addr: u64, index: usize },
    /// Write `len` copies of `byte` from `addr` on.
    Fill { addr: u64, byte: u8, len: u64 },
    /// Write a little-endian 32-bit word.
    WriteU32 { addr: u64, value: u32 },
    /// Write a little-endian 64-bit word.
    WriteU64 { addr: u64, value: u64 },
    /// Set a register.
    SetReg { reg: Reg, value: u64 },
}

/// A call ready to run: perform `steps`, set the program counter to `pc`,
/// and run until `stop_at` is reached.
#[derive(Clone, Debug)]
pub struct CallPlan {
    pub steps: Vec<Step>,
    /// The value that each argument is passed as.
    pub args: Vec<u64>,
    /// The stack pointer the call starts with.
    pub sp: u64,
    pub pc: u64,
    pub stop_at: u64,
}

/// What a plan holds, as mathematical values.
pub struct PlanView {
    pub steps: Seq<Step>,
    pub args: Seq<u64>,
    pub sp: u64,
    pub pc: u64,
    pub stop_at: u64,
}

impl View for CallPlan {
    type V = PlanView;

    open spec fn view(&self) -> PlanView {
        PlanView {
            steps: self.steps@,
            args: self.args@,
            sp: self.sp,
            pc: self.pc,
            stop_at: self.stop_at,
        }
    }
}

/// The arena once the call's stack is committed.
pub open spec fn stack_grown(arch: Arch, a: Arena, n: int) -> Arena {
    Arena {
        heap_used: 0,
        stack_size: committed_after(
            a.stack_size as int,
            stack_request(arch, n),
            a.page_size as int,
        ) as u64,
        ..a
    }
}

/// The arena after a successful call plan: heap emptied and then holding the
/// call's heap windows, stack committed for the call.
pub open spec fn arena_after(arch: Arch, a: Arena, ps: Seq<Param>) -> Arena {
    let s = stack_grown(arch, a, ps.len() as int);
    let total = heap_total(ps, ps.len() as int);
    Arena {
        heap_used: total as u64,
        heap_size: committed_after(s.heap_size as int, total, s.page_size as int) as u64,
        ..s
    }
}

/// Why planning the call fails, if it does: the shape first, then the stack,
/// then the heap.
pub open spec fn call_error(arch: Arch, a: Arena, ps: Seq<Param>, rs: Seq<Return>) -> Option<
    CallError,
> {
    let n = ps.len() as int;
    if shape_error(arch, ps, rs) is Some {
        shape_error(arch, ps, rs)
    } else if a.emptied().stack_refuses(stack_request(arch, n)) {
        Some(CallError::OversizedRegion(Region::Stack))
    } else if stack_grown(arch, a, n).heap_refuses(heap_total(ps, n)) {
        Some(CallError::OversizedRegion(Region::Heap))
    } else {
        None
    }
}

/// The pages that growing a region from `size` to hold `need` bytes maps.
pub open spec fn growth(base: u64, size: u64, need: int, page: u64) -> Seq<Step> {
    if need <= size {
        Seq::empty()
    } else {
        seq![
            Step::MapPages(
                Mapping {
                    addr: (base + size) as u64,
                    len: (round_up(need, page as int) - size) as u64,
                },
            ),
        ]
    }
}

/// The value that argument `i` is passed as, with heap windows from `base`.
pub open spec fn arg_value(ps: Seq<Param>, i: int, base: u64) -> u64 {
    match ps[i] {
        Param::Usize(v) => v,
        Param::F32(b) => b as u64,
        Param::F64(b) => b,
        _ => (base + heap_total(ps, i)) as u64,
    }
}

/// Where argument `i` is placed.
pub open spec fn placement(arch: Arch, ps: Seq<Param>, i: int, v: u64, sp: u64) -> Step {
    if arch == Arch::X86 {
        Step::WriteU32 { addr: (sp + 4 + 4 * i) as u64, value: #[verifier::truncate] (v as u32) }
    } else if ps[i].is_float() {
        Step::SetReg { reg: float_arg_reg(arch, float_rank(ps, i), ps[i] is F32), value: v }
    } else {
        Step::SetReg { reg: int_arg_reg(arch, int_rank(ps, i)), value: v }
    }
}

/// `param_steps` with the argument's value given.
pub open spec fn param_steps_with(arch: Arch, ps: Seq<Param>, i: int, v: u64, sp: u64) -> Seq<
    Step,
> {
    let writes = match ps[i] {
        Param::HeapData(_) => seq![Step::CopyParam { addr: v, index: i as usize }],
        Param::HeapFill { byte, len, .. } => seq![
            Step::Fill { addr: v, byte, len },
            Step::Fill { addr: (v + len) as u64, byte: 0, len: 1 },
        ],
        _ => Seq::empty(),
    };
    writes + seq![placement(arch, ps, i, v, sp)]
}

/// The steps for argument `i`: its heap contents, if any, then its placement.
pub open spec fn param_steps(arch: Arch, ps: Seq<Param>, i: int, base: u64, sp: u64) -> Seq<Step> {
    param_steps_with(arch, ps, i, arg_value(ps, i, base), sp)
}

/// The steps for the first `n` arguments, in argument order.
pub open spec fn params_steps(arch: Arch, ps: Seq<Param>, n: int, base: u64, sp: u64) -> Seq<Step>
    decreases n,
{
    if n <= 0 {
        Seq::empty()
    } else {
        params_steps(arch, ps, n - 1, base, sp) + param_steps(arch, ps, n - 1, base, sp)
    }
}

/// The step that rigs the return linkage.
pub open spec fn link_step(arch: Arch, sp: u64, ra: u64) -> Step {
    match arch {
        Arch::X86 => Step::WriteU32 { addr: sp, value: ra as u32 },
        Arch::X86_64 => Step::WriteU64 { addr: sp, value: ra },
        Arch::Arm => Step::SetReg { reg: Reg::Lr, value: ra },
        Arch::Aarch64 => Step::SetReg { reg: Reg::X(30), value: ra },
    }
}

/// The plan of a call that does not fail.
pub open spec fn plan_view(arch: Arch, a: Arena, fa: u64, ra: u64, ps: Seq<Param>) -> PlanView {
    let n = ps.len() as int;
    let e = a.emptied();
    let s = stack_grown(arch, a, n);
    let total = heap_total(ps, n);
    let base = a.heap_addr;
    let sp = (s.stack_addr + s.stack_size - stack_need(arch, n)) as u64;
    PlanView {
        steps: growth(e.stack_addr, e.stack_size, stack_request(arch, n), e.page_size) + growth(
            s.heap_addr,
            s.heap_size,
            total,
            s.page_size,
        ) + params_steps(arch, ps, n, base, sp) + seq![
            link_step(arch, sp, ra),
            Step::SetReg { reg: sp_reg(arch), value: sp },
        ],
        args: Seq::new(ps.len(), |i: int| arg_value(ps, i, base)),
        sp,
        pc: fa,
        stop_at: ra,
    }
}

/// The steps for one argument, given its value and its rank in its class.
fn push_param_steps(
    arch: Arch,
    params: &Vec<Param>,
    i: usize,
    v: u64,
    ints: usize,
    floats: usize,
    sp: u64,
    steps: &mut Vec<Step>,
)
    requires
        i < params@.len(),
        ints == int_rank(params@, i as int),
        floats == float_rank(params@, i as int),
        !params@[i as int].is_float() ==> (int_slots(arch) is Some ==> ints < int_slots(arch)->0),
        params@[i as int].is_float() ==> floats < float_slots(arch),
        arch == Arch::X86 ==> sp + 4 + 4 * i <= u64::MAX,
        match params@[i as int] {
            Param::HeapFill { len, .. } => v + len <= u64::MAX,
            _ => true,
        },
    ensures
        final(steps)@ == old(steps)@ + param_steps_with(arch, params@, i as int, v, sp),
{
    match &params[i] {
        Param::HeapData(_) => {
            steps.push(Step::CopyParam { addr: v, index: i });
        },
        Param::HeapFill { byte, len, .. } => {
            steps.push(Step::Fill { addr: v, byte: *byte, len: *len });
            steps.push(Step::Fill { addr: v + *len, byte: 0, len: 1 });
        },
        _ => {},
    }
    let place = if arch == Arch::X86 {
        Step::WriteU32 { addr: sp + 4 + 4 * (i as u64), value: #[verifier::truncate] (v as u32) }
    } else {
        match &params[i] {
            Param::F32(_) => Step::SetReg { reg: float_arg_reg_of(arch, floats, true), value: v },
            Param::F64(_) => Step::SetReg { reg: float_arg_reg_of(arch, floats, false), value: v },
            _ => Step::SetReg { reg: int_arg_reg_of(arch, ints), value: v },
        }
    };
    steps.push(place);
}

/// Heap bytes for one argument, or `None` where they do not fit in 64 bits.
fn heap_need_of(p: &Param) -> (r: Option<u64>)
    ensures
        match r {
            Some(k) => k == p.heap_need(),
            None => p.heap_need() > u64::MAX,
        },
{
    match p {
        Param::HeapData(d) => Some(d.len() as u64),
        Param::HeapFill { len, extra, .. } => {
            if *len > u64::MAX - 1 || *extra > u64::MAX - 1 - *len {
                None
            } else {
                Some(*len + 1 + *extra)
            }
        },
        _ => Some(0),
    }
}

/// Total heap bytes of all arguments, or `None` where they do not fit in 64
/// bits.
fn heap_total_of(params: &Vec<Param>) -> (r: Option<u64>)
    ensures
        match r {
            Some(t) => t == heap_total(params@, params@.len() as int),
            None => heap_total(params@, params@.len() as int) > u64::MAX,
        },
{
    let n = params.len();
    let ghost ps = params@;
    let mut total: u64 = 0;
    let mut i: usize = 0;
    while i < n
        invariant
            n == ps.len(),
            ps == params@,
            i <= n,
            total == heap_total(ps, i as int),
        decreases n - i,
    {
        proof {
            lemma_prefix_nonneg(ps, i as int);
        }
        let k = match heap_need_of(&params[i]) {
            Some(k) => k,
            None => {
                proof {
                    lemma_prefix_monotone(ps, i as int + 1, n as int);
                }
                return None;
            },
        };
        if k > u64::MAX - total {
            proof {
                lemma_prefix_monotone(ps, i as int + 1, n as int);
            }
            return None;
        }
        total = total + k;
        i = i + 1;
    }
    Some(total)
}

/// Stack bytes below the top that a call with `n` arguments uses, or `None`
/// where they do not fit in 64 bits.
fn stack_need_of(arch: Arch, n: usize) -> (r: Option<u64>)
    ensures
        match r {
            Some(k) => k == stack_need(arch, n as int),
            None => stack_need(arch, n as int) > u64::MAX,
        },
{
    match arch {
        Arch::X86 => {
            if n as u64 >= u64::MAX / 4 {
                None
            } else {
                Some(4 * (n as u64 + 1))
            }
        },
        Arch::X86_64 => Some(8),
        _ => Some(0),
    }
}

/// Appends the steps of every argument, in argument order, and returns the
/// value each one is passed as.
fn lay_out_params(
    arch: Arch,
    params: &Vec<Param>,
    results: &Vec<Return>,
    base: u64,
    sp: u64,
    steps: &mut Vec<Step>,
) -> (args: Vec<u64>)
    requires
        shape_error(arch, params@, results@) is None,
        base + heap_total(params@, params@.len() as int) <= u64::MAX,
        arch == Arch::X86 ==> sp + 4 * (params@.len() + 1) <= u64::MAX,
    ensures
        final(steps)@ == old(steps)@ + params_steps(arch, params@, params@.len() as int, base, sp),
        args@ == Seq::new(params@.len(), |q: int| arg_value(params@, q, base)),
{
    let n = params.len();
    let ghost ps = params@;
    let ghost prefix = steps@;
    let ghost total = heap_total(ps, n as int);
    let mut args: Vec<u64> = Vec::new();
    let mut off: u64 = 0;
    let mut ints: usize = 0;
    let mut floats: usize = 0;
    let mut j: usize = 0;
    while j < n
        invariant
            n == ps.len(),
            ps == params@,
            j <= n,
            off == heap_total(ps, j as int),
            total == heap_total(ps, n as int),
            base + total <= u64::MAX,
            ints == int_rank(ps, j as int),
            floats == float_rank(ps, j as int),
            ints + floats == j,
            shape_error(arch, ps, results@) is None,
            arch == Arch::X86 ==> sp + 4 * (n + 1) <= u64::MAX,
            steps@ == prefix + params_steps(arch, ps, j as int, base, sp),
            args@ == Seq::new(j as nat, |q: int| arg_value(ps, q, base)),
        decreases n - j,
    {
        proof {
            lemma_prefix_monotone(ps, j as int + 1, n as int);
            lemma_prefix_nonneg(ps, j as int);
        }
        let v = match &params[j] {
            Param::Usize(x) => *x,
            Param::F32(b) => *b as u64,
            Param::F64(b) => *b,
            _ => base + off,
        };
        push_param_steps(arch, params, j, v, ints, floats, sp, steps);
        args.push(v);
        let k = match heap_need_of(&params[j]) {
            Some(k) => k,
            None => 0,
        };
        off = off + k;
        match &params[j] {
            Param::F32(_) | Param::F64(_) => {
                floats = floats + 1;
            },
            _ => {
                ints = ints + 1;
            },
        }
        j = j + 1;
        proof {
            assert(args@ =~= Seq::new(j as nat, |q: int| arg_value(ps, q, base)));
        }
    }
    args
}

/// The calling convention and the stack and heap arenas of one emulator
/// session.
pub struct Adapter {
    pub arch: Arch,
    pub arena: Arena,
}

impl Adapter {
    /// An adapter with empty arenas.
    pub fn new(arch: Arch, arena: Arena) -> (r: Adapter)
        requires
            arena.wf(),
        ensures
            r.arch == arch,
            r.arena == arena.emptied(),
            r.arena.wf(),
    {
        let mut arena = arena;
        arena.free_all();
        Adapter { arch, arena }
    }

    /// Plans a call of the function at `function_addr` that returns to
    /// `return_addr`: empties the heap, commits the stack, lays out every
    /// argument and rigs the return linkage. Nothing is planned, and nothing
    /// but the heap offset changes, when the call is refused.
    #[verifier::rlimit(50)]
    pub fn plan_call(
        &mut self,
        function_addr: u64,
        return_addr: u64,
        params: &Vec<Param>,
        results: &Vec<Return>,
    ) -> (r: Result<CallPlan, CallError>)
        requires
            old(self).arena.wf(),
        ensures
            final(self).arena.wf(),
            final(self).arch == old(self).arch,
            final(self).arena.stack_size >= old(self).arena.stack_size,
            final(self).arena.heap_size >= old(self).arena.heap_size,
            call_error(old(self).arch, old(self).arena, params@, results@) is Some <==> r is Err,
            match r {
                Ok(plan) => {
                    &&& final(self).arena == arena_after(old(self).arch, old(self).arena, params@)
                    &&& plan@ == plan_view(
                        old(self).arch,
                        old(self).arena,
                        function_addr,
                        return_addr,
                        params@,
                    )
                },
                Err(e) => {
                    &&& Some(e) == call_error(old(self).arch, old(self).arena, params@, results@)
                    &&& final(self).arena == old(self).arena.emptied()
                },
            },
    {
        let arch = self.arch;
        let ghost a0 = self.arena;
        let ghost ps = params@;
        self.arena.free_all();
        if let Err(e) = check_shape(arch, params, results) {
            return Err(e);
        }
        let n = params.len();
        proof {
            lemma_prefix_nonneg(ps, n as int);
            lemma_round_up(stack_request(arch, n as int), a0.page_size as int);
            lemma_round_up(heap_total(ps, n as int), a0.page_size as int);
        }
        let need = match stack_need_of(arch, n) {
            Some(k) => k,
            None => {
                return Err(CallError::OversizedRegion(Region::Stack));
            },
        };
        let request = if need < MIN_STACK {
            MIN_STACK
        } else {
            need
        };
        let mut work = self.arena;
        let stack_map = match work.set_stack_len(request) {
            Ok(m) => m,
            Err(e) => {
                return Err(e);
            },
        };
        let total = match heap_total_of(params) {
            Some(t) => t,
            None => {
                return Err(CallError::OversizedRegion(Region::Heap));
            },
        };
        let (base, heap_map) = match work.malloc(total) {
            Ok(x) => x,
            Err(e) => {
                return Err(e);
            },
        };
        self.arena = work;
        let top = work.stack_addr + work.stack_size;
        let sp = top - need;
        let mut steps: Vec<Step> = Vec::new();
        if let Some(m) = stack_map {
            steps.push(Step::MapPages(m));
        }
        if let Some(m) = heap_map {
            steps.push(Step::MapPages(m));
        }
        let args = lay_out_params(arch, params, results, base, sp, &mut steps);
        let link = match arch {
            Arch::X86 => Step::WriteU32 { addr: sp, value: #[verifier::truncate] (return_addr as u32) },
            Arch::X86_64 => Step::WriteU64 { addr: sp, value: return_addr },
            Arch::Arm => Step::SetReg { reg: Reg::Lr, value: return_addr },
            Arch::Aarch64 => Step::SetReg { reg: Reg::X(30), value: return_addr },
        };
        steps.push(link);
        steps.push(Step::SetReg { reg: sp_reg_of(arch), value: sp });
        assert(steps@ == plan_view(arch, a0, function_addr, return_addr, ps).steps);
        Ok(CallPlan { steps, args, sp, pc: function_addr, stop_at: return_addr })
    }
}

} // verus!
