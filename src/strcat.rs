use vstd::prelude::*;

use crate::cstr::{c_str, c_string_of, copy_bytes, terminated_at};
use crate::strlen::{self, StrlenTest, short_string};
use crate::value::{Param, Return};

verus! {

/// A `strcat` case with both strings copied from the host: the call must
/// return the C string of `dst` followed by that of `src`.
#[derive(Clone, Debug)]
pub struct StrcatTestStatic {
    pub src: Vec<u8>,
    pub dst: Vec<u8>,
    pub result: Vec<u8>,
}

/// A `strcat` case with both strings written in guest memory: `src.1` copies
/// of `src.0` appended to `dst.1` copies of `dst.0`. The expected string is
/// `res.3` copies of `res.2` followed by `res.1` copies of `res.0`.
#[derive(Clone, Copy, Debug)]
pub struct StrcatTestLong {
    pub src: (u8, u64),
    pub dst: (u8, u64),
    pub res: (u8, u64, u8, u64),
}

/// One `strcat` case.
#[derive(Clone, Debug)]
pub enum StrcatTest {
    Static(StrcatTestStatic),
    Long(StrcatTestLong),
}

/// Whether the decoded results are exactly one string equal to `expected`.
pub open spec fn is_string_result(out: Seq<Return>, expected: Seq<u8>) -> bool {
    out.len() == 1 && (out[0] matches Return::CString(b) && b@ == expected)
}

fn check_string(out: &Vec<Return>, expected: &Vec<u8>) -> (r: bool)
    ensures
        r == is_string_result(out@, expected@),
{
    if out.len() != 1 {
        return false;
    }
    match &out[0] {
        Return::CString(b) => {
            if b.len() != expected.len() {
                return false;
            }
            let mut i: usize = 0;
            while i < b.len()
                invariant
                    b@.len() == expected@.len(),
                    out@.len() == 1,
                    out@[0] == Return::CString(*b),
                    i <= b@.len(),
                    forall|k: int| 0 <= k < i ==> b@[k] == expected@[k],
                decreases b@.len() - i,
            {
                if b[i] != expected[i] {
                    proof {
                        assert(b@[i as int] != expected@[i as int]);
                        assert(b@ != expected@);
                    }
                    return false;
                }
                i = i + 1;
            }
            proof {
                assert(b@ =~= expected@);
            }
            true
        },
        _ => false,
    }
}

impl StrcatTestStatic {
    /// The case with its expected string.
    pub fn new(src: Vec<u8>, dst: Vec<u8>) -> (r: StrcatTestStatic)
        ensures
            r.src@ == src@,
            r.dst@ == dst@,
            r.result@ == c_str(dst@) + c_str(src@),
    {
        let mut result = c_string_of(&dst);
        let tail = c_string_of(&src);
        let ghost head = result@;
        let mut i: usize = 0;
        while i < tail.len()
            invariant
                i <= tail@.len(),
                result@ == head + tail@.take(i as int),
            decreases tail@.len() - i,
        {
            result.push(tail[i]);
            i = i + 1;
            proof {
                assert(result@ =~= head + tail@.take(i as int));
            }
        }
        proof {
            assert(tail@.take(tail@.len() as int) =~= tail@);
        }
        StrcatTestStatic { src, dst, result }
    }

    /// The arguments: `dst` followed by room for the result, then `src`, both
    /// copied to the heap.
    pub fn params(&self) -> (r: Vec<Param>)
        ensures
            r@.len() == 2,
            r@[0] matches Param::HeapData(d) && d@ == self.dst@ + Seq::new(
                self.result@.len(),
                |k: int| 0u8,
            ),
            r@[1] matches Param::HeapData(s) && s@ == self.src@,
    {
        let mut d = copy_bytes(&self.dst);
        let ghost head = d@;
        let mut i: usize = 0;
        while i < self.result.len()
            invariant
                i <= self.result@.len(),
                d@ == head + Seq::new(i as nat, |k: int| 0u8),
            decreases self.result@.len() - i,
        {
            d.push(0);
            i = i + 1;
            proof {
                assert(d@ =~= head + Seq::new(i as nat, |k: int| 0u8));
            }
        }
        let s = copy_bytes(&self.src);
        vec![Param::HeapData(d), Param::HeapData(s)]
    }

    /// The declared results: one string.
    pub fn outputs(&self) -> (r: Vec<Return>)
        ensures
            r@.len() == 1,
            r@[0] matches Return::CString(b) && b@.len() == 0,
    {
        vec![Return::CString(Vec::new())]
    }

    /// Whether the decoded results are the expected string.
    pub fn check(&self, out: &Vec<Return>) -> (r: bool)
        ensures
            r == is_string_result(out@, self.result@),
    {
        check_string(out, &self.result)
    }
}

/// `n` copies of `b`.
pub open spec fn repeat(b: u8, n: nat) -> Seq<u8> {
    Seq::new(n, |k: int| b)
}

impl StrcatTestLong {
    /// The expected string.
    pub open spec fn expected(&self) -> Seq<u8> {
        repeat(self.res.2, self.res.3 as nat) + repeat(self.res.0, self.res.1 as nat)
    }

    /// The arguments: `dst` with room for `src` after its terminator, then
    /// `src`, both written in the heap.
    pub fn params(&self) -> (r: Vec<Param>)
        ensures
            r@ == seq![
                Param::HeapFill { byte: self.dst.0, len: self.dst.1, extra: self.src.1 },
                Param::HeapFill { byte: self.src.0, len: self.src.1, extra: 0 },
            ],
    {
        vec![
            Param::HeapFill { byte: self.dst.0, len: self.dst.1, extra: self.src.1 },
            Param::HeapFill { byte: self.src.0, len: self.src.1, extra: 0 },
        ]
    }

    /// The declared results: one string.
    pub fn outputs(&self) -> (r: Vec<Return>)
        ensures
            r@.len() == 1,
            r@[0] matches Return::CString(b) && b@.len() == 0,
    {
        vec![Return::CString(Vec::new())]
    }

    /// Whether the decoded results are the expected string.
    pub fn check(&self, out: &Vec<Return>) -> (r: bool)
        ensures
            r == is_string_result(out@, self.expected()),
    {
        if out.len() != 1 {
            return false;
        }
        let head = self.res.3;
        let tail = self.res.1;
        match &out[0] {
            Return::CString(b) => {
                let len = b.len() as u64;
                if len < head || len - head != tail {
                    proof {
                        if b@ == self.expected() {
                            assert(b@.len() == head + tail);
                        }
                    }
                    return false;
                }
                let mut i: usize = 0;
                while i < b.len()
                    invariant
                        out@.len() == 1,
                        out@[0] == Return::CString(*b),
                        b@.len() == head + tail,
                        head == self.res.3,
                        tail == self.res.1,
                        self.expected().len() == head + tail,
                        i <= b@.len(),
                        forall|k: int| 0 <= k < i ==> b@[k] == self.expected()[k],
                    decreases b@.len() - i,
                {
                    let want = if (i as u64) < head {
                        self.res.2
                    } else {
                        self.res.0
                    };
                    assert(want == self.expected()[i as int]);
                    if b[i] != want {
                        proof {
                            assert(b@[i as int] != self.expected()[i as int]);
                            assert(b@ != self.expected());
                        }
                        return false;
                    }
                    i = i + 1;
                }
                proof {
                    assert(b@ =~= self.expected());
                }
                true
            },
            _ => false,
        }
    }
}

/// A case with both strings from the host that expects their concatenation.
pub open spec fn is_concat_case(t: StrcatTest) -> bool {
    match t {
        StrcatTest::Static(s) => s.result@ == c_str(s.dst@) + c_str(s.src@),
        StrcatTest::Long(_) => false,
    }
}

/// The source string of the `i`-th short pair.
pub open spec fn pair_src(i: int) -> Seq<u8> {
    if i == 0 {
        seq![0x00u8]
    } else if i == 1 {
        seq![0x01u8, 0x02u8, 0x03u8, 0x00u8]
    } else if i == 2 {
        seq![0x00u8, 0x02u8, 0x03u8, 0x00u8]
    } else if i == 3 {
        seq![0x02u8, 0x01u8, 0x00u8]
    } else if i == 4 {
        seq![0x01u8, 0x02u8, 0x00u8]
    } else {
        Seq::empty()
    }
}

/// The destination string of the `i`-th short pair.
pub open spec fn pair_dst(i: int) -> Seq<u8> {
    if i == 0 {
        seq![0x01u8, 0x02u8, 0x03u8, 0x00u8]
    } else if i == 1 {
        seq![0x00u8, 0x01u8, 0x02u8, 0x03u8]
    } else if i == 2 {
        seq![0x01u8, 0x02u8, 0x03u8, 0x00u8]
    } else if i == 3 {
        seq![0x01u8, 0x02u8, 0x00u8]
    } else if i == 4 {
        seq![0x02u8, 0x01u8, 0x00u8]
    } else {
        Seq::empty()
    }
}

/// Whether `t` appends `src` to `dst`, both copied from the host, and expects
/// their concatenation.
pub open spec fn is_pair_case(t: StrcatTest, src: Seq<u8>, dst: Seq<u8>) -> bool {
    match t {
        StrcatTest::Static(s) => s.src@ == src && s.dst@ == dst && s.result@ == c_str(dst) + c_str(
            src,
        ),
        StrcatTest::Long(_) => false,
    }
}

/// Every `strcat` case: each `strlen` string appended to an empty string,
/// then five pairs of short strings, then two pairs of long ones.
pub fn all_tests() -> (r: Vec<StrcatTest>)
    ensures
        r@.len() == 17,
        forall|i: int|
            0 <= i < 9 ==> is_pair_case(#[trigger] r@[i], short_string(i), seq![0u8]),
        r@[9] is Static && r@[9]->Static_0.src@.len() == 341 && terminated_at(
            r@[9]->Static_0.src@,
            340,
        ) && is_pair_case(r@[9], r@[9]->Static_0.src@, seq![0u8]),
        forall|i: int|
            0 <= i < 5 ==> is_pair_case(#[trigger] r@[10 + i], pair_src(i), pair_dst(i)),
        forall|i: int| 0 <= i < 15 ==> is_concat_case(#[trigger] r@[i]),
        r@[15] == StrcatTest::Long(
            StrcatTestLong {
                src: (0x01, 0x1234),
                dst: (0x02, 0x4321),
                res: (0x01, 0x1234, 0x02, 0x4321),
            },
        ),
        r@[16] == StrcatTest::Long(
            StrcatTestLong {
                src: (0xff, 0x1000),
                dst: (0xfe, 0x1000),
                res: (0xff, 0x1000, 0xfe, 0x1000),
            },
        ),
{
    let strings = strlen::all_tests();
    let mut tests: Vec<StrcatTest> = Vec::new();
    let mut i: usize = 0;
    while i < 10
        invariant
            strings@.len() == 12,
            forall|j: int| 0 <= j < 10 ==> (#[trigger] strings@[j]) is Static,
            i <= 10,
            tests@.len() == i,
            forall|j: int|
                0 <= j < i ==> is_pair_case(
                    #[trigger] tests@[j],
                    strings@[j]->Static_0.data@,
                    seq![0u8],
                ),
        decreases 10 - i,
    {
        let empty = vec![0u8];
        assert(empty@ =~= seq![0u8]);
        match &strings[i] {
            StrlenTest::Static(s) => {
                let t = StrcatTestStatic::new(copy_bytes(&s.data), empty);
                tests.push(StrcatTest::Static(t));
            },
            StrlenTest::Long(_) => {
                tests.push(StrcatTest::Static(StrcatTestStatic::new(vec![0u8], empty)));
            },
        }
        i = i + 1;
    }
    let src = vec![0x00u8];
    let dst = vec![0x01u8, 0x02u8, 0x03u8, 0x00u8];
    assert(src@ =~= pair_src(0) && dst@ =~= pair_dst(0));
    push_pair(&mut tests, src, dst);
    let src = vec![0x01u8, 0x02u8, 0x03u8, 0x00u8];
    let dst = vec![0x00u8, 0x01u8, 0x02u8, 0x03u8];
    assert(src@ =~= pair_src(1) && dst@ =~= pair_dst(1));
    push_pair(&mut tests, src, dst);
    let src = vec![0x00u8, 0x02u8, 0x03u8, 0x00u8];
    let dst = vec![0x01u8, 0x02u8, 0x03u8, 0x00u8];
    assert(src@ =~= pair_src(2) && dst@ =~= pair_dst(2));
    push_pair(&mut tests, src, dst);
    let src = vec![0x02u8, 0x01u8, 0x00u8];
    let dst = vec![0x01u8, 0x02u8, 0x00u8];
    assert(src@ =~= pair_src(3) && dst@ =~= pair_dst(3));
    push_pair(&mut tests, src, dst);
    let src = vec![0x01u8, 0x02u8, 0x00u8];
    let dst = vec![0x02u8, 0x01u8, 0x00u8];
    assert(src@ =~= pair_src(4) && dst@ =~= pair_dst(4));
    push_pair(&mut tests, src, dst);
    tests.push(
        StrcatTest::Long(
            StrcatTestLong {
                src: (0x01, 0x1234),
                dst: (0x02, 0x4321),
                res: (0x01, 0x1234, 0x02, 0x4321),
            },
        ),
    );
    tests.push(
        StrcatTest::Long(
            StrcatTestLong {
                src: (0xff, 0x1000),
                dst: (0xfe, 0x1000),
                res: (0xff, 0x1000, 0xfe, 0x1000),
            },
        ),
    );
    assert forall|i: int| 0 <= i < 15 implies is_concat_case(#[trigger] tests@[i]) by {
        if i < 10 {
            assert(is_pair_case(tests@[i], strings@[i]->Static_0.data@, seq![0u8]));
        } else {
            assert(is_pair_case(tests@[i], pair_src(i - 10), pair_dst(i - 10)));
        }
    }
    tests
}

fn push_pair(tests: &mut Vec<StrcatTest>, src: Vec<u8>, dst: Vec<u8>)
    ensures
        final(tests)@ == old(tests)@.push(final(tests)@.last()),
        is_pair_case(final(tests)@.last(), src@, dst@),
{
    tests.push(StrcatTest::Static(StrcatTestStatic::new(src, dst)));
}

} // verus!
