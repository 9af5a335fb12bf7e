use vstd::prelude::*;

use crate::abi::{Arch, Reg, result_reg, result_reg_of};
use crate::error::CallError;
use crate::value::Return;

verus! {

/// Accepts the emulator's stop only where it is the breakpoint at the return
/// address; otherwise reports the architecture, the halting address and the
/// emulator's reason.
pub fn check_exit(arch: Arch, breakpoint: bool, pc: u64, stop_at: u64, reason: String) -> (r:
    Result<(), CallError>)
    ensures
        r is Ok <==> breakpoint && pc == stop_at,
        r is Err ==> r == Err::<(), CallError>(CallError::UnexpectedHalt { arch, pc, reason }),
{
    if breakpoint && pc == stop_at {
        Ok(())
    } else {
        Err(CallError::UnexpectedHalt { arch, pc, reason })
    }
}

/// The declared result decoded from the raw value of its register. A string
/// result is read from memory instead, and keeps its value here.
pub open spec fn decoded(r: Return, raw: u64) -> Return {
    match r {
        Return::Usize(_) => Return::Usize(raw),
        Return::F32(_) => Return::F32(raw as u32),
        Return::F64(_) => Return::F64(raw),
        Return::I64(_) => Return::I64(raw as i64),
        Return::CString(b) => Return::CString(b),
    }
}

/// Stores in a declared scalar result the value decoded from the raw value of
/// its register.
pub fn fill_result(r: &mut Return, raw: u64)
    ensures
        *final(r) == decoded(*old(r), raw),
{
    match r {
        Return::Usize(v) => {
            *v = raw;
        },
        Return::F32(v) => {
            *v = #[verifier::truncate] (raw as u32);
        },
        Return::F64(v) => {
            *v = raw;
        },
        Return::I64(v) => {
            *v = #[verifier::truncate] (raw as i64);
        },
        Return::CString(_) => {},
    }
}

/// The registers that the declared results are read from, in order.
pub fn result_regs(arch: Arch, results: &Vec<Return>) -> (r: Vec<Reg>)
    ensures
        r@.len() == results@.len(),
        forall|i: int| 0 <= i < r@.len() ==> r@[i] == result_reg(arch, #[trigger] results@[i]),
{
    let mut r: Vec<Reg> = Vec::new();
    let mut i: usize = 0;
    while i < results.len()
        invariant
            i <= results@.len(),
            r@.len() == i,
            forall|k: int| 0 <= k < i ==> r@[k] == result_reg(arch, #[trigger] results@[k]),
        decreases results@.len() - i,
    {
        r.push(result_reg_of(arch, &results[i]));
        i = i + 1;
    }
    r
}

/// Ends a call: accepts the emulator's stop as `check_exit` does and then
/// decodes every declared scalar result from the raw value of its register.
/// When the stop is refused the results are left as they were.
pub fn finish_call(
    arch: Arch,
    breakpoint: bool,
    pc: u64,
    stop_at: u64,
    reason: String,
    raws: &Vec<u64>,
    results: &mut Vec<Return>,
) -> (r: Result<(), CallError>)
    requires
        raws@.len() == old(results)@.len(),
    ensures
        r is Ok <==> breakpoint && pc == stop_at,
        r is Err ==> r == Err::<(), CallError>(CallError::UnexpectedHalt { arch, pc, reason })
            && final(results)@ == old(results)@,
        r is Ok ==> final(results)@.len() == old(results)@.len() && forall|i: int|
            0 <= i < old(results)@.len() ==> #[trigger] final(results)@[i] == decoded(
                old(results)@[i],
                raws@[i],
            ),
{
    if let Err(e) = check_exit(arch, breakpoint, pc, stop_at, reason) {
        return Err(e);
    }
    let ghost before = results@;
    let mut i: usize = 0;
    while i < results.len()
        invariant
            raws@.len() == before.len(),
            results@.len() == before.len(),
            i <= before.len(),
            forall|k: int| 0 <= k < i ==> #[trigger] results@[k] == decoded(before[k], raws@[k]),
            forall|k: int| i <= k < before.len() ==> #[trigger] results@[k] == before[k],
        decreases before.len() - i,
    {
        fill_result(&mut results[i], raws[i]);
        i = i + 1;
    }
    Ok(())
}

/// Reads a null-terminated string out of guest memory one byte at a time: it
/// names the next address to read and takes the byte found there, until it
/// takes a zero byte or holds `max` bytes.
pub struct CStrReader {
    pub addr: u64,
    pub max: u64,
    pub bytes: Vec<u8>,
    pub done: bool,
}

/// The bytes of `mem` from `addr` on, up to the first zero byte or up to `max`
/// bytes, whichever comes first.
pub open spec fn cstr_in(mem: spec_fn(int) -> u8, addr: int, max: int) -> Seq<u8>
    decreases max,
{
    if max <= 0 || mem(addr) == 0 {
        Seq::empty()
    } else {
        seq![mem(addr)] + cstr_in(mem, addr + 1, max - 1)
    }
}

impl CStrReader {
    /// The bytes taken hold no zero.
    pub open spec fn wf(&self) -> bool {
        &&& self.bytes@.len() <= self.max
        &&& forall|i: int| 0 <= i < self.bytes@.len() ==> self.bytes@[i] != 0
    }

    /// The address to read next, if any.
    pub open spec fn pending(&self) -> Option<u64> {
        if self.done || self.bytes@.len() >= self.max || self.addr + self.bytes@.len() > u64::MAX {
            None
        } else {
            Some((self.addr + self.bytes@.len()) as u64)
        }
    }

    /// The bytes taken are those of `mem` from `addr` on, and a taken zero is
    /// the byte of `mem` that follows them.
    pub open spec fn read_from(&self, mem: spec_fn(int) -> u8) -> bool {
        &&& forall|i: int| 0 <= i < self.bytes@.len() ==> self.bytes@[i] == mem(self.addr + i)
        &&& self.done ==> mem(self.addr + self.bytes@.len()) == 0
    }

    pub fn new(addr: u64, max: u64) -> (r: CStrReader)
        ensures
            r.wf(),
            r.addr == addr,
            r.max == max,
            r.bytes@ == Seq::<u8>::empty(),
            !r.done,
    {
        CStrReader { addr, max, bytes: Vec::new(), done: false }
    }

    /// The address to read next, or `None` once the string is complete.
    pub fn next_addr(&self) -> (r: Option<u64>)
        ensures
            r == self.pending(),
    {
        if self.done || self.bytes.len() as u64 >= self.max {
            return None;
        }
        let len = self.bytes.len() as u64;
        if self.addr > u64::MAX - len {
            None
        } else {
            Some(self.addr + len)
        }
    }

    /// Takes the byte read at the pending address.
    pub fn push(&mut self, byte: u8)
        requires
            old(self).wf(),
            old(self).pending() is Some,
        ensures
            final(self).wf(),
            final(self).addr == old(self).addr,
            final(self).max == old(self).max,
            byte == 0 ==> final(self).done && final(self).bytes@ == old(self).bytes@,
            byte != 0 ==> !final(self).done && final(self).bytes@ == old(self).bytes@.push(byte),
    {
        if byte == 0 {
            self.done = true;
        } else {
            self.bytes.push(byte);
        }
    }

    /// The string read so far, without its terminator.
    pub fn into_bytes(self) -> (r: Vec<u8>)
        ensures
            r@ == self.bytes@,
    {
        self.bytes
    }
}

proof fn lemma_reader_suffix(r: CStrReader, mem: spec_fn(int) -> u8, i: int)
    requires
        r.wf(),
        r.read_from(mem),
        r.done || r.bytes@.len() >= r.max,
        0 <= i <= r.bytes@.len(),
    ensures
        cstr_in(mem, r.addr + i, r.max - i) == r.bytes@.subrange(i, r.bytes@.len() as int),
    decreases r.bytes@.len() - i,
{
    let b = r.bytes@;
    if i < b.len() {
        lemma_reader_suffix(r, mem, i + 1);
        assert(r.addr + i + 1 == r.addr + (i + 1));
        assert(b.subrange(i, b.len() as int) =~= seq![b[i]] + b.subrange(i + 1, b.len() as int));
    } else {
        assert(b.subrange(i, b.len() as int) =~= Seq::<u8>::empty());
    }
}

/// A reader that has finished, having taken the bytes of `mem` at the
/// addresses it named, holds the C string of `mem` at its address, cut at
/// `max` bytes.
pub proof fn finished_reader_holds_cstr(r: CStrReader, mem: spec_fn(int) -> u8)
    requires
        r.wf(),
        r.read_from(mem),
        r.pending() is None,
        r.addr + r.max <= u64::MAX,
    ensures
        r.bytes@ == cstr_in(mem, r.addr as int, r.max as int),
{
    lemma_reader_suffix(r, mem, 0);
    assert(r.bytes@.subrange(0, r.bytes@.len() as int) =~= r.bytes@);
    assert(r.addr + 0 == r.addr);
}

} // verus!
