use vstd::prelude::*;

verus! {

/// One argument of a guest call. Floating-point values travel as their IEEE
/// 754 bit patterns.
#[derive(Clone, Debug, PartialEq, Eq)]
pub enum Param {
    /// An integer- or pointer-sized scalar.
    Usize(u64),
    /// The bits of a 32-bit float.
    F32(u32),
    /// The bits of a 64-bit float.
    F64(u64),
    /// Bytes copied into a fresh heap window; the argument is its address.
    HeapData(Vec<u8>),
    /// A heap window of `len + 1 + extra` bytes whose first `len` bytes are
    /// `byte` and whose next byte is zero; the argument is its address. The
    /// bytes are written in guest memory and never built on the host.
    HeapFill { byte: u8, len: u64, extra: u64 },
}

/// One declared result of a guest call; after the call it holds the decoded
/// value. Floating-point values travel as their IEEE 754 bit patterns.
#[derive(Clone, Debug, PartialEq, Eq)]
pub enum Return {
    /// An integer- or pointer-sized scalar.
    Usize(u64),
    /// The bits of a 32-bit float.
    F32(u32),
    /// The bits of a 64-bit float.
    F64(u64),
    /// A signed 64-bit integer.
    I64(i64),
    /// The bytes of the null-terminated string that the result points to,
    /// without the terminator.
    CString(Vec<u8>),
}

impl Param {
    /// Passed in a floating-point register class.
    pub open spec fn is_float(self) -> bool {
        self is F32 || self is F64
    }

    /// The heap bytes that encoding this argument takes.
    pub open spec fn heap_need(self) -> int {
        match self {
            Param::HeapData(d) => d@.len() as int,
            Param::HeapFill { len, extra, .. } => len + 1 + extra,
            _ => 0,
        }
    }
}

/// Heap bytes taken by the first `n` arguments.
pub open spec fn heap_total(ps: Seq<Param>, n: int) -> int
    decreases n,
{
    if n <= 0 {
        0
    } else {
        heap_total(ps, n - 1) + ps[n - 1].heap_need()
    }
}

/// Number of integer-class arguments among the first `n`.
pub open spec fn int_rank(ps: Seq<Param>, n: int) -> int
    decreases n,
{
    if n <= 0 {
        0
    } else {
        int_rank(ps, n - 1) + if ps[n - 1].is_float() {
            0int
        } else {
            1int
        }
    }
}

/// Number of floating-point arguments among the first `n`.
pub open spec fn float_rank(ps: Seq<Param>, n: int) -> int
    decreases n,
{
    if n <= 0 {
        0
    } else {
        float_rank(ps, n - 1) + if ps[n - 1].is_float() {
            1int
        } else {
            0int
        }
    }
}

pub proof fn lemma_prefix_monotone(ps: Seq<Param>, i: int, n: int)
    requires
        0 <= i <= n,
    ensures
        0 <= heap_total(ps, i) <= heap_total(ps, n),
        0 <= int_rank(ps, i) <= int_rank(ps, n),
        0 <= float_rank(ps, i) <= float_rank(ps, n),
    decreases n,
{
    if i < n {
        lemma_prefix_monotone(ps, i, n - 1);
    } else {
        lemma_prefix_nonneg(ps, n);
    }
}

pub proof fn lemma_prefix_nonneg(ps: Seq<Param>, n: int)
    ensures
        heap_total(ps, n) >= 0,
        int_rank(ps, n) >= 0,
        float_rank(ps, n) >= 0,
    decreases n,
{
    if n > 0 {
        lemma_prefix_nonneg(ps, n - 1);
    }
}

} // verus!
