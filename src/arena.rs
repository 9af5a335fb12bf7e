use vstd::prelude::*;
use vstd::arithmetic::div_mod::{lemma_fundamental_div_mod, lemma_mod_multiples_vanish};

use crate::error::{CallError, Region};

verus! {

/// `n` rounded up to a whole number of pages.
pub open spec fn round_up(n: int, page: int) -> int {
    if n % page == 0 {
        n
    } else {
        n - n % page + page
    }
}

/// The committed size of a region after a request for `need` bytes: pages are
/// added only when the request does not fit in what is already committed.
pub open spec fn committed_after(committed: int, need: int, page: int) -> int {
    if need <= committed {
        committed
    } else {
        round_up(need, page)
    }
}

pub proof fn lemma_round_up(n: int, page: int)
    requires
        page > 0,
        n >= 0,
    ensures
        n <= round_up(n, page) < n + page,
        round_up(n, page) % page == 0,
{
    let q = n / page;
    let r = n % page;
    lemma_fundamental_div_mod(n, page);
    if r != 0 {
        assert(n - r + page == page * (q + 1)) by (nonlinear_arith)
            requires
                n == page * q + r,
        ;
        lemma_mod_multiples_vanish(q + 1, 0, page);
    }
}

/// Rounding is unchanged by a whole number of pages in front.
pub proof fn lemma_round_up_shift(c: int, g: int, page: int)
    requires
        page > 0,
        c >= 0,
        g >= 0,
        c % page == 0,
    ensures
        round_up(c + g, page) == c + round_up(g, page),
{
    lemma_fundamental_div_mod(c, page);
    lemma_mod_multiples_vanish(c / page, g, page);
}

/// A size below an aligned bound rounds to at most that bound.
pub proof fn lemma_round_up_below(n: int, c: int, page: int)
    requires
        page > 0,
        0 <= n <= c,
        c % page == 0,
    ensures
        round_up(n, page) <= c,
{
    let q = n / page;
    let r = n % page;
    let qc = c / page;
    lemma_fundamental_div_mod(n, page);
    lemma_fundamental_div_mod(c, page);
    if r != 0 {
        assert(q < qc) by (nonlinear_arith)
            requires
                n == page * q + r,
                c == page * qc,
                0 < r < page,
                n <= c,
                page > 0,
        ;
        assert(page * (q + 1) <= page * qc) by (nonlinear_arith)
            requires
                q + 1 <= qc,
                page > 0,
        ;
        assert(n - r + page == page * (q + 1)) by (nonlinear_arith)
            requires
                n == page * q + r,
        ;
    }
}

/// A range of guest addresses that must be mapped, zero-filled and readable and
/// writable, before the planned call runs.
#[derive(Clone, Copy, Debug, PartialEq, Eq, Structural)]
pub struct Mapping {
    pub addr: u64,
    pub len: u64,
}

/// The bookkeeping of the stack and heap arenas of one emulator session.
///
/// The stack is committed upward from `stack_addr`; its top,
/// `stack_addr + stack_size`, is where a call's stack pointer starts. The heap
/// is bump-allocated from `heap_addr`: `heap_used` bytes are handed out and
/// `heap_size` bytes are committed.
#[derive(Clone, Copy, Debug, PartialEq, Eq, Structural)]
pub struct Arena {
    pub stack_addr: u64,
    pub stack_size: u64,
    pub stack_max: u64,
    pub heap_addr: u64,
    pub heap_used: u64,
    pub heap_size: u64,
    pub heap_max: u64,
    pub page_size: u64,
}

impl Arena {
    /// Well-formedness: sizes within their limits, committed sizes whole pages,
    /// both regions addressable and disjoint.
    pub open spec fn wf(&self) -> bool {
        &&& self.page_size > 0
        &&& self.stack_size <= self.stack_max
        &&& self.heap_used <= self.heap_size <= self.heap_max
        &&& self.stack_size % self.page_size == 0
        &&& self.heap_size % self.page_size == 0
        &&& self.stack_addr + self.stack_max <= u64::MAX
        &&& self.heap_addr + self.heap_max <= u64::MAX
        &&& (self.stack_addr + self.stack_max <= self.heap_addr || self.heap_addr
            + self.heap_max <= self.stack_addr)
    }

    /// Whether `set_stack_len(len)` fails.
    pub open spec fn stack_refuses(&self, len: int) -> bool {
        len > self.stack_size && round_up(len, self.page_size as int) > self.stack_max
    }

    /// Whether `malloc(size)` fails.
    pub open spec fn heap_refuses(&self, size: int) -> bool {
        round_up(self.heap_used + size, self.page_size as int) > self.heap_max
    }

    /// The arena with its heap emptied and nothing else changed.
    pub open spec fn emptied(self) -> Arena {
        Arena { heap_used: 0, ..self }
    }

    /// Empty arenas over the given regions.
    pub fn new(stack_addr: u64, stack_max: u64, heap_addr: u64, heap_max: u64, page_size: u64) -> (r:
        Arena)
        requires
            page_size > 0,
            stack_addr + stack_max <= u64::MAX,
            heap_addr + heap_max <= u64::MAX,
            stack_addr + stack_max <= heap_addr || heap_addr + heap_max <= stack_addr,
        ensures
            r.wf(),
            r == (Arena {
                stack_addr,
                stack_size: 0,
                stack_max,
                heap_addr,
                heap_used: 0,
                heap_size: 0,
                heap_max,
                page_size,
            }),
    {
        Arena {
            stack_addr,
            stack_size: 0,
            stack_max,
            heap_addr,
            heap_used: 0,
            heap_size: 0,
            heap_max,
            page_size,
        }
    }

    /// Commits the stack up to at least `len` bytes. Returns the pages to map,
    /// if any were added.
    pub fn set_stack_len(&mut self, len: u64) -> (r: Result<Option<Mapping>, CallError>)
        requires
            old(self).wf(),
        ensures
            final(self).wf(),
            final(self).stack_size >= old(self).stack_size,
            old(self).stack_refuses(len as int) <==> r is Err,
            match r {
                Ok(m) => {
                    &&& *final(self) == Arena {
                        stack_size: committed_after(
                            old(self).stack_size as int,
                            len as int,
                            old(self).page_size as int,
                        ) as u64,
                        ..*old(self)
                    }
                    &&& m == if len <= old(self).stack_size {
                        None::<Mapping>
                    } else {
                        Some(
                            Mapping {
                                addr: (old(self).stack_addr + old(self).stack_size) as u64,
                                len: (final(self).stack_size - old(self).stack_size) as u64,
                            },
                        )
                    }
                },
                Err(e) => e == CallError::OversizedRegion(Region::Stack) && *final(self) == *old(
                    self,
                ),
            },
    {
        if len <= self.stack_size {
            return Ok(None);
        }
        let grow = len - self.stack_size;
        let avail = self.stack_max - self.stack_size;
        let rem = grow % self.page_size;
        proof {
            lemma_round_up(grow as int, self.page_size as int);
            lemma_round_up(len as int, self.page_size as int);
            lemma_round_up_shift(self.stack_size as int, grow as int, self.page_size as int);
        }
        if grow > avail {
            return Err(CallError::OversizedRegion(Region::Stack));
        }
        let pad = if rem == 0 {
            0
        } else {
            self.page_size - rem
        };
        if pad > avail - grow {
            return Err(CallError::OversizedRegion(Region::Stack));
        }
        let size = grow + pad;
        let addr = self.stack_addr + self.stack_size;
        self.stack_size = self.stack_size + size;
        Ok(Some(Mapping { addr, len: size }))
    }

    /// Hands out a `size`-byte window at the heap's current offset, committing
    /// pages when the uncommitted remainder is too small. Returns the window's
    /// address and the pages to map, if any were added.
    pub fn malloc(&mut self, size: u64) -> (r: Result<(u64, Option<Mapping>), CallError>)
        requires
            old(self).wf(),
        ensures
            final(self).wf(),
            final(self).heap_size >= old(self).heap_size,
            old(self).heap_refuses(size as int) <==> r is Err,
            match r {
                Ok((addr, m)) => {
                    let need = old(self).heap_used + size;
                    &&& addr == old(self).heap_addr + old(self).heap_used
                    &&& *final(self) == Arena {
                        heap_used: need as u64,
                        heap_size: committed_after(
                            old(self).heap_size as int,
                            need,
                            old(self).page_size as int,
                        ) as u64,
                        ..*old(self)
                    }
                    &&& m == if need <= old(self).heap_size {
                        None::<Mapping>
                    } else {
                        Some(
                            Mapping {
                                addr: (old(self).heap_addr + old(self).heap_size) as u64,
                                len: (final(self).heap_size - old(self).heap_size) as u64,
                            },
                        )
                    }
                },
                Err(e) => e == CallError::OversizedRegion(Region::Heap) && *final(self) == *old(
                    self,
                ),
            },
    {
        let ghost need = self.heap_used + size;
        proof {
            lemma_round_up(need, self.page_size as int);
            if need <= self.heap_size {
                lemma_round_up_below(need, self.heap_size as int, self.page_size as int);
            }
        }
        let available = self.heap_size - self.heap_used;
        if size <= available {
            let addr = self.heap_addr + self.heap_used;
            self.heap_used = self.heap_used + size;
            return Ok((addr, None));
        }
        let grow = size - available;
        let room = self.heap_max - self.heap_size;
        let rem = grow % self.page_size;
        proof {
            lemma_round_up(grow as int, self.page_size as int);
            lemma_round_up_shift(self.heap_size as int, grow as int, self.page_size as int);
            lemma_round_up((self.heap_size + grow) as int, self.page_size as int);
        }
        if grow > room {
            return Err(CallError::OversizedRegion(Region::Heap));
        }
        let pad = if rem == 0 {
            0
        } else {
            self.page_size - rem
        };
        if pad > room - grow {
            return Err(CallError::OversizedRegion(Region::Heap));
        }
        let commit = grow + pad;
        let map_addr = self.heap_addr + self.heap_size;
        self.heap_size = self.heap_size + commit;
        let addr = self.heap_addr + self.heap_used;
        self.heap_used = self.heap_used + size;
        Ok((addr, Some(Mapping { addr: map_addr, len: commit })))
    }

    /// Releases every heap allocation at once. Committed pages stay mapped and
    /// are reused by later allocations.
    pub fn free_all(&mut self)
        requires
            old(self).wf(),
        ensures
            final(self).wf(),
            *final(self) == old(self).emptied(),
    {
        self.heap_used = 0;
    }
}

} // verus!
