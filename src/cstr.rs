use vstd::prelude::*;

verus! {

/// Index of the first zero byte of `s` at or after `i`, or its length.
pub open spec fn first_zero(s: Seq<u8>, i: int) -> int
    decreases s.len() - i,
{
    if i >= s.len() {
        s.len() as int
    } else if s[i] == 0 {
        i
    } else {
        first_zero(s, i + 1)
    }
}

/// The length of the C string at the start of `s`.
pub open spec fn c_len(s: Seq<u8>) -> int {
    first_zero(s, 0)
}

/// The C string at the start of `s`, without its terminator.
pub open spec fn c_str(s: Seq<u8>) -> Seq<u8> {
    s.take(c_len(s))
}

/// The first zero byte of `s` is at `k`.
pub open spec fn terminated_at(s: Seq<u8>, k: int) -> bool {
    &&& 0 <= k < s.len()
    &&& s[k] == 0
    &&& forall|j: int| 0 <= j < k ==> s[j] != 0
}

proof fn lemma_first_zero_at(s: Seq<u8>, i: int, k: int)
    requires
        terminated_at(s, k),
        0 <= i <= k,
    ensures
        first_zero(s, i) == k,
    decreases k - i,
{
    if i < k {
        lemma_first_zero_at(s, i + 1, k);
    }
}

/// A string whose first zero byte is at `k` has a C string of length `k`.
pub proof fn lemma_c_len_at(s: Seq<u8>, k: int)
    requires
        terminated_at(s, k),
    ensures
        c_len(s) == k,
{
    lemma_first_zero_at(s, 0, k);
}

/// Length of the C string at the start of `s`.
pub fn c_strlen(s: &Vec<u8>) -> (r: usize)
    ensures
        r == c_len(s@),
        r <= s@.len(),
{
    let mut i: usize = 0;
    while i < s.len()
        invariant
            i <= s@.len(),
            first_zero(s@, i as int) == c_len(s@),
        decreases s@.len() - i,
    {
        if s[i] == 0 {
            return i;
        }
        i = i + 1;
    }
    i
}

/// A copy of the first `n` bytes of `s`.
pub fn prefix(s: &Vec<u8>, n: usize) -> (r: Vec<u8>)
    requires
        n <= s@.len(),
    ensures
        r@ == s@.take(n as int),
{
    let mut r: Vec<u8> = Vec::new();
    let mut i: usize = 0;
    while i < n
        invariant
            n <= s@.len(),
            i <= n,
            r@ == s@.take(i as int),
        decreases n - i,
    {
        r.push(s[i]);
        i = i + 1;
        proof {
            assert(r@ =~= s@.take(i as int));
        }
    }
    r
}

/// A copy of `s`.
pub fn copy_bytes(s: &Vec<u8>) -> (r: Vec<u8>)
    ensures
        r@ == s@,
{
    let r = prefix(s, s.len());
    proof {
        assert(s@.take(s@.len() as int) =~= s@);
    }
    r
}

/// The C string at the start of `s`, without its terminator.
pub fn c_string_of(s: &Vec<u8>) -> (r: Vec<u8>)
    ensures
        r@ == c_str(s@),
{
    let n = c_strlen(s);
    prefix(s, n)
}

} // verus!
