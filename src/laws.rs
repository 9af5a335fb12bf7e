use vstd::prelude::*;

use crate::abi::{Arch, shape_error, sp_reg, stack_need, stack_request};
use crate::arena::{Arena, lemma_round_up, round_up};
use crate::call::{
    Step, arena_after, arg_value, call_error, link_step, param_steps, params_steps, placement,
    plan_view, stack_grown,
};
use crate::decode::cstr_in;
use crate::memory::{lemma_step_elsewhere, run_steps, step_effect, writes_at};
use crate::error::{CallError, Region};
use crate::value::{Param, Return, heap_total, lemma_prefix_nonneg};

verus! {

/// The arena after one planned call, whether it succeeds or is refused.
pub open spec fn arena_after_call(arch: Arch, a: Arena, ps: Seq<Param>, rs: Seq<Return>) -> Arena {
    if call_error(arch, a, ps, rs) is Some {
        a.emptied()
    } else {
        arena_after(arch, a, ps)
    }
}

/// The arena after a sequence of planned calls, each given by its arguments
/// and declared results.
pub open spec fn arena_after_calls(arch: Arch, a: Arena, calls: Seq<(Seq<Param>, Seq<Return>)>) -> Arena
    decreases calls.len(),
{
    if calls.len() == 0 {
        a
    } else {
        let last = calls.last();
        arena_after_call(arch, arena_after_calls(arch, a, calls.drop_last()), last.0, last.1)
    }
}

/// Every call starts from an empty heap: what a call is refused for, the
/// arena it leaves and the plan it makes do not depend on how much heap
/// earlier calls used, and the heap it leaves holds exactly its own windows.
pub proof fn call_starts_with_empty_heap(
    arch: Arch,
    a: Arena,
    b: Arena,
    fa: u64,
    ra: u64,
    ps: Seq<Param>,
    rs: Seq<Return>,
)
    requires
        a.wf(),
        b.wf(),
        a.emptied() == b.emptied(),
    ensures
        call_error(arch, a, ps, rs) == call_error(arch, b, ps, rs),
        arena_after_call(arch, a, ps, rs) == arena_after_call(arch, b, ps, rs),
        plan_view(arch, a, fa, ra, ps) == plan_view(arch, b, fa, ra, ps),
        call_error(arch, a, ps, rs) is None ==> arena_after(arch, a, ps).heap_used == heap_total(
            ps,
            ps.len() as int,
        ),
        call_error(arch, a, ps, rs) is Some ==> arena_after_call(arch, a, ps, rs).heap_used == 0,
{
    lemma_prefix_nonneg(ps, ps.len() as int);
    lemma_round_up(heap_total(ps, ps.len() as int), a.page_size as int);
    assert(stack_grown(arch, a, ps.len() as int) == stack_grown(arch, b, ps.len() as int));
}

proof fn lemma_call_monotone(arch: Arch, a: Arena, ps: Seq<Param>, rs: Seq<Return>)
    requires
        a.page_size > 0,
    ensures
        arena_after_call(arch, a, ps, rs).page_size == a.page_size,
        arena_after_call(arch, a, ps, rs).stack_size >= a.stack_size,
        arena_after_call(arch, a, ps, rs).heap_size >= a.heap_size,
{
    let n = ps.len() as int;
    lemma_prefix_nonneg(ps, n);
    lemma_round_up(heap_total(ps, n), a.page_size as int);
    if stack_request(arch, n) >= 0 {
        lemma_round_up(stack_request(arch, n), a.page_size as int);
    }
}

/// Committed memory never shrinks: over any sequence of calls on one adapter,
/// refused or not, the committed stack and heap sizes only grow.
pub proof fn committed_memory_never_shrinks(
    arch: Arch,
    a: Arena,
    calls: Seq<(Seq<Param>, Seq<Return>)>,
    k: int,
)
    requires
        a.wf(),
        0 <= k <= calls.len(),
    ensures
        arena_after_calls(arch, a, calls.take(k)).stack_size <= arena_after_calls(
            arch,
            a,
            calls,
        ).stack_size,
        arena_after_calls(arch, a, calls.take(k)).heap_size <= arena_after_calls(
            arch,
            a,
            calls,
        ).heap_size,
        arena_after_calls(arch, a, calls).page_size == a.page_size,
    decreases calls.len(),
{
    if calls.len() > 0 {
        let init = calls.drop_last();
        let last = calls.last();
        if k < calls.len() {
            assert(calls.take(k) =~= init.take(k));
            committed_memory_never_shrinks(arch, a, init, k);
        } else {
            assert(calls.take(k) =~= calls);
            committed_memory_never_shrinks(arch, a, init, 0);
        }
        lemma_call_monotone(arch, arena_after_calls(arch, a, init), last.0, last.1);
    } else {
        assert(calls.take(k) =~= calls);
    }
}

/// A call whose arguments the convention can place, but whose stack or heap
/// would pass its region's maximum, is refused with `OversizedRegion` for the
/// first region that overflows, and commits no memory.
pub proof fn oversized_call_commits_nothing(
    arch: Arch,
    a: Arena,
    ps: Seq<Param>,
    rs: Seq<Return>,
)
    requires
        a.wf(),
        shape_error(arch, ps, rs) is None,
    ensures
        a.emptied().stack_refuses(stack_request(arch, ps.len() as int)) ==> call_error(
            arch,
            a,
            ps,
            rs,
        ) == Some(CallError::OversizedRegion(Region::Stack)),
        !a.emptied().stack_refuses(stack_request(arch, ps.len() as int)) && round_up(
            heap_total(ps, ps.len() as int),
            a.page_size as int,
        ) > a.heap_max ==> call_error(arch, a, ps, rs) == Some(
            CallError::OversizedRegion(Region::Heap),
        ),
        call_error(arch, a, ps, rs) is Some ==> {
            let after = arena_after_call(arch, a, ps, rs);
            &&& after.stack_size == a.stack_size
            &&& after.heap_size == a.heap_size
        },
{
}

proof fn lemma_cstr_reads(mem: spec_fn(int) -> u8, addr: int, data: Seq<u8>, i: int, max: int)
    requires
        data.len() > 0,
        data.last() == 0,
        forall|k: int| 0 <= k < data.len() - 1 ==> data[k] != 0,
        forall|k: int| 0 <= k < data.len() ==> mem(addr + k) == data[k],
        0 <= i <= data.len() - 1,
        max >= data.len() - 1,
    ensures
        cstr_in(mem, addr + i, max - i) == data.subrange(i, data.len() - 1),
    decreases data.len() - 1 - i,
{
    assert(mem(addr + i) == data[i]);
    if i < data.len() - 1 {
        lemma_cstr_reads(mem, addr, data, i + 1, max);
        assert(addr + i + 1 == addr + (i + 1));
        assert(data.subrange(i, data.len() - 1) =~= seq![data[i]] + data.subrange(
            i + 1,
            data.len() - 1,
        ));
    } else {
        assert(data.subrange(i, data.len() - 1) =~= Seq::<u8>::empty());
    }
}

/// Round trip: when the only argument is a `HeapData` string, terminated by its
/// one zero byte, the C string that guest memory holds, once the planned steps
/// are performed, at the address the argument is passed as is that string
/// without its terminator, whatever memory held before.
pub proof fn heap_data_round_trip(
    arch: Arch,
    a: Arena,
    fa: u64,
    ra: u64,
    ps: Seq<Param>,
    rs: Seq<Return>,
    mem: spec_fn(int) -> u8,
    max: int,
)
    requires
        a.wf(),
        call_error(arch, a, ps, rs) is None,
        ps.len() == 1,
        ps[0] is HeapData,
        ps[0]->HeapData_0@.len() > 0,
        ps[0]->HeapData_0@.last() == 0,
        forall|k: int|
            0 <= k < ps[0]->HeapData_0@.len() - 1 ==> #[trigger] ps[0]->HeapData_0@[k] != 0,
        max >= ps[0]->HeapData_0@.len() - 1,
    ensures
        ({
            let p = plan_view(arch, a, fa, ra, ps);
            let d = ps[0]->HeapData_0@;
            cstr_in(run_steps(mem, p.steps, ps), p.args[0] as int, max) == d.take(d.len() - 1)
        }),
{
    let n = 1int;
    let d = ps[0]->HeapData_0@;
    let e = a.emptied();
    let s = stack_grown(arch, a, n);
    let base = a.heap_addr;
    let total = heap_total(ps, n);
    let sp = (s.stack_addr + s.stack_size - stack_need(arch, n)) as u64;
    let p = plan_view(arch, a, fa, ra, ps);
    lemma_prefix_nonneg(ps, 1);
    lemma_round_up(total, a.page_size as int);
    lemma_round_up(stack_request(arch, n), a.page_size as int);
    assert(heap_total(ps, 0) == 0);
    assert(total == d.len());
    assert(arg_value(ps, 0, base) == base);
    let c = Step::CopyParam { addr: base, index: 0 };
    let pl = placement(arch, ps, 0, base, sp);
    let l = link_step(arch, sp, ra);
    let st = Step::SetReg { reg: sp_reg(arch), value: sp };
    assert(param_steps(arch, ps, 0, base, sp) =~= seq![c, pl]);
    assert(params_steps(arch, ps, 0, base, sp) =~= Seq::<Step>::empty());
    assert(params_steps(arch, ps, 1, base, sp) =~= seq![c, pl]);
    let g = p.steps.subrange(0, p.steps.len() - 4);
    assert(p.steps =~= g + seq![c, pl, l, st]);
    let m0 = run_steps(mem, g, ps);
    let m1 = step_effect(m0, c, ps);
    let m2 = step_effect(m1, pl, ps);
    let m3 = step_effect(m2, l, ps);
    let m4 = step_effect(m3, st, ps);
    assert((g + seq![c, pl, l, st]).drop_last() =~= g + seq![c, pl, l]);
    assert((g + seq![c, pl, l]).drop_last() =~= g + seq![c, pl]);
    assert((g + seq![c, pl]).drop_last() =~= g + seq![c]);
    assert((g + seq![c]).drop_last() =~= g);
    assert(run_steps(mem, g + seq![c], ps) == m1);
    assert(run_steps(mem, g + seq![c, pl], ps) == m2);
    assert(run_steps(mem, g + seq![c, pl, l], ps) == m3);
    assert(run_steps(mem, g + seq![c, pl, l, st], ps) == m4);
    assert(run_steps(mem, p.steps, ps) == m4);
    assert(s.stack_size <= s.stack_max);
    assert(s.stack_size >= stack_need(arch, n));
    assert forall|k: int| 0 <= k < d.len() implies m4(base + k) == d[k] by {
        let x = base + k;
        assert(!writes_at(pl, ps, x));
        assert(!writes_at(l, ps, x));
        lemma_step_elsewhere(m1, pl, ps, x);
        lemma_step_elsewhere(m2, l, ps, x);
        lemma_step_elsewhere(m3, st, ps, x);
    }
    assert(p.args[0] == base);
    lemma_cstr_reads(m4, base as int, d, 0, max);
    assert(d.subrange(0, d.len() - 1) =~= d.take(d.len() - 1));
    assert(base + 0 == base);
}

} // verus!
