use vstd::prelude::*;

use crate::cstr::{c_len, c_strlen, copy_bytes, lemma_c_len_at, terminated_at};
use crate::value::{Param, Return};

verus! {

/// A string that mixes characters of many scripts, terminated by a zero;
/// `funny_bytes` holds its bytes.
pub const FUNNY_STRING: &'static str = "aÃ§ðŸ˜‚Â¢Å´Æ‰ÇÇ†Ç—Ç±ÈŒÈ˜È¤È®ÈµÈ¸á¸á¹‘áºœáºžáºŸá»ƒá»»É–Ê­Êº   Ì‰Í¶á¼¢Ð‰ÕƒÙ£×“Ü£Þ“Þ“à¨¦à¬–áˆ¶á“…á Šá¡ˆâ€ â€–â·â‚§â„§â…§â†·âˆ§â—â–â“‚â”³â–â–®â™ðŸ­‚âœºáŽµà •à¡•\x00";

/// A `strlen` case whose string is copied from the host: the call must
/// return `result`.
#[derive(Clone, Debug)]
pub struct StrlenTestStatic {
    pub data: Vec<u8>,
    pub result: u64,
}

/// A `strlen` case whose string, `data_len` copies of `data` and a zero, is
/// written in guest memory.
#[derive(Clone, Copy, Debug)]
pub struct StrlenTestLong {
    pub data: u8,
    pub data_len: u64,
}

/// One `strlen` case.
#[derive(Clone, Debug)]
pub enum StrlenTest {
    Static(StrlenTestStatic),
    Long(StrlenTestLong),
}

impl StrlenTestStatic {
    /// The case's string with its expected length, the length of the C string
    /// at its start.
    pub fn new(data: Vec<u8>) -> (r: StrlenTestStatic)
        ensures
            r.data@ == data@,
            r.result == c_len(data@),
    {
        let n = c_strlen(&data);
        assert(usize::MAX <= u64::MAX);
        StrlenTestStatic { data, result: n as u64 }
    }

    /// The arguments: the string, copied to the heap.
    pub fn params(&self) -> (r: Vec<Param>)
        ensures
            r@.len() == 1,
            r@[0] matches Param::HeapData(d) && d@ == self.data@,
    {
        let d = copy_bytes(&self.data);
        vec![Param::HeapData(d)]
    }

    /// The declared results: one scalar.
    pub fn outputs(&self) -> (r: Vec<Return>)
        ensures
            r@ == seq![Return::Usize(0)],
    {
        vec![Return::Usize(0)]
    }

    /// Whether the decoded results are the expected length.
    pub fn check(&self, out: &Vec<Return>) -> (r: bool)
        ensures
            r == (out@ == seq![Return::Usize(self.result)]),
    {
        if out.len() != 1 {
            proof {
                assert(out@.len() != seq![Return::Usize(self.result)].len());
            }
            return false;
        }
        let r = match &out[0] {
            Return::Usize(v) => *v == self.result,
            _ => false,
        };
        proof {
            if r {
                assert(out@ =~= seq![Return::Usize(self.result)]);
            } else {
                assert(out@[0] != seq![Return::Usize(self.result)][0]);
            }
        }
        r
    }
}

impl StrlenTestLong {
    /// The arguments: `data_len` copies of `data` and a zero, written in the
    /// heap.
    pub fn params(&self) -> (r: Vec<Param>)
        ensures
            r@ == seq![Param::HeapFill { byte: self.data, len: self.data_len, extra: 0 }],
    {
        vec![Param::HeapFill { byte: self.data, len: self.data_len, extra: 0 }]
    }

    /// The declared results: one scalar.
    pub fn outputs(&self) -> (r: Vec<Return>)
        ensures
            r@ == seq![Return::Usize(0)],
    {
        vec![Return::Usize(0)]
    }

    /// Whether the decoded results are `data_len`.
    pub fn check(&self, out: &Vec<Return>) -> (r: bool)
        ensures
            r == (out@ == seq![Return::Usize(self.data_len)]),
    {
        if out.len() != 1 {
            proof {
                assert(out@.len() != seq![Return::Usize(self.data_len)].len());
            }
            return false;
        }
        let r = match &out[0] {
            Return::Usize(v) => *v == self.data_len,
            _ => false,
        };
        proof {
            if r {
                assert(out@ =~= seq![Return::Usize(self.data_len)]);
            } else {
                assert(out@[0] != seq![Return::Usize(self.data_len)][0]);
            }
        }
        r
    }
}

/// Whether a case expects what `strlen` returns on its string: its string
/// holds a zero byte and the expected length is the index of the first one.
pub open spec fn well_formed_case(t: StrlenTest) -> bool {
    match t {
        StrlenTest::Static(s) => s.result == c_len(s.data@) && terminated_at(s.data@, s.result as int),
        StrlenTest::Long(_) => true,
    }
}

/// Whether `t` is the case with string `data` that expects `result`.
pub open spec fn is_static_case(t: StrlenTest, data: Seq<u8>, result: u64) -> bool {
    match t {
        StrlenTest::Static(s) => s.data@ == data && s.result == result,
        StrlenTest::Long(_) => false,
    }
}

/// The `i`-th short string of the table.
pub open spec fn short_string(i: int) -> Seq<u8> {
    if i == 0 {
        seq![0x74u8, 0x65u8, 0x73u8, 0x74u8, 0x00u8]
    } else if i == 1 {
        seq![0x74u8, 0x65u8, 0x73u8, 0x74u8, 0x00u8, 0x31u8, 0x32u8, 0x33u8]
    } else if i == 2 {
        seq![0x00u8]
    } else if i == 3 {
        seq![0x00u8, 0x74u8, 0x65u8, 0x73u8, 0x74u8]
    } else if i == 4 {
        seq![0x74u8, 0x65u8, 0x73u8, 0x74u8, 0xffu8, 0x00u8, 0x74u8, 0x65u8, 0x73u8, 0x74u8]
    } else if i == 5 {
        seq![0x01u8, 0x02u8, 0x03u8, 0x04u8, 0x0du8, 0x0au8, 0x7fu8, 0x00u8]
    } else if i == 6 {
        seq![0xffu8, 0xfeu8, 0xfdu8, 0xfcu8, 0xa0u8, 0xa1u8, 0xa2u8, 0xa3u8, 0x00u8]
    } else if i == 7 {
        seq![0xffu8, 0x00u8, 0x21u8, 0x00u8]
    } else if i == 8 {
        seq![0x00u8, 0x20u8, 0x00u8, 0x01u8, 0x00u8]
    } else {
        Seq::empty()
    }
}

/// The length that `strlen` returns on the `i`-th short string.
pub open spec fn short_length(i: int) -> u64 {
    if i == 0 {
        4
    } else if i == 1 {
        4
    } else if i == 2 {
        0
    } else if i == 3 {
        0
    } else if i == 4 {
        5
    } else if i == 5 {
        7
    } else if i == 6 {
        8
    } else if i == 7 {
        1
    } else if i == 8 {
        0
    } else {
        0
    }
}

fn push_case(tests: &mut Vec<StrlenTest>, data: Vec<u8>, result: u64)
    requires
        terminated_at(data@, result as int),
    ensures
        final(tests)@ == old(tests)@.push(final(tests)@.last()),
        is_static_case(final(tests)@.last(), data@, result),
        well_formed_case(final(tests)@.last()),
{
    proof {
        lemma_c_len_at(data@, result as int);
    }
    tests.push(StrlenTest::Static(StrlenTestStatic { data, result }));
}

/// Every `strlen` case: nine short strings copied from the host and the
/// mixed-script string, each expecting the length of its C string, then two
/// long strings written in the guest.
pub fn all_tests() -> (r: Vec<StrlenTest>)
    ensures
        r@.len() == 12,
        forall|i: int| 0 <= i < 9 ==> is_static_case(#[trigger] r@[i], short_string(i), short_length(i)),
        r@[9] is Static && r@[9]->Static_0.data@.len() == 341 && r@[9]->Static_0.result == 340,
        forall|i: int| 0 <= i < 10 ==> (#[trigger] r@[i]) is Static && well_formed_case(r@[i]),
        r@[10] == StrlenTest::Long(StrlenTestLong { data: 0x01, data_len: 0x1234 }),
        r@[11] == StrlenTest::Long(StrlenTestLong { data: 0xff, data_len: 0x4321 }),
{
    let mut tests: Vec<StrlenTest> = Vec::new();
    let d = vec![0x74u8, 0x65u8, 0x73u8, 0x74u8, 0x00u8];
    assert(d@ =~= short_string(0));
    push_case(&mut tests, d, 4);
    let d = vec![0x74u8, 0x65u8, 0x73u8, 0x74u8, 0x00u8, 0x31u8, 0x32u8, 0x33u8];
    assert(d@ =~= short_string(1));
    push_case(&mut tests, d, 4);
    let d = vec![0x00u8];
    assert(d@ =~= short_string(2));
    push_case(&mut tests, d, 0);
    let d = vec![0x00u8, 0x74u8, 0x65u8, 0x73u8, 0x74u8];
    assert(d@ =~= short_string(3));
    push_case(&mut tests, d, 0);
    let d = vec![0x74u8, 0x65u8, 0x73u8, 0x74u8, 0xffu8, 0x00u8, 0x74u8, 0x65u8, 0x73u8, 0x74u8];
    assert(d@ =~= short_string(4));
    push_case(&mut tests, d, 5);
    let d = vec![0x01u8, 0x02u8, 0x03u8, 0x04u8, 0x0du8, 0x0au8, 0x7fu8, 0x00u8];
    assert(d@ =~= short_string(5));
    push_case(&mut tests, d, 7);
    let d = vec![0xffu8, 0xfeu8, 0xfdu8, 0xfcu8, 0xa0u8, 0xa1u8, 0xa2u8, 0xa3u8, 0x00u8];
    assert(d@ =~= short_string(6));
    push_case(&mut tests, d, 8);
    let d = vec![0xffu8, 0x00u8, 0x21u8, 0x00u8];
    assert(d@ =~= short_string(7));
    push_case(&mut tests, d, 1);
    let d = vec![0x00u8, 0x20u8, 0x00u8, 0x01u8, 0x00u8];
    assert(d@ =~= short_string(8));
    push_case(&mut tests, d, 0);
    push_case(&mut tests, funny_bytes(), 340);
    tests.push(StrlenTest::Long(StrlenTestLong { data: 0x01, data_len: 0x1234 }));
    tests.push(StrlenTest::Long(StrlenTestLong { data: 0xff, data_len: 0x4321 }));
    tests
}

/// Appends `c` to `v`.
fn append_bytes(v: &mut Vec<u8>, c: Vec<u8>)
    ensures
        final(v)@ == old(v)@ + c@,
{
    let mut i: usize = 0;
    let ghost start = v@;
    while i < c.len()
        invariant
            i <= c@.len(),
            v@ == start + c@.take(i as int),
        decreases c@.len() - i,
    {
        v.push(c[i]);
        i = i + 1;
        proof {
            assert(v@ =~= start + c@.take(i as int));
        }
    }
    proof {
        assert(c@.take(c@.len() as int) =~= c@);
    }
}

/// The bytes of `FUNNY_STRING`: 340 nonzero bytes and the terminator.
pub fn funny_bytes() -> (r: Vec<u8>)
    ensures
        r@.len() == 341,
        terminated_at(r@, 340),
{
    let mut r: Vec<u8> = Vec::new();
    let c = vec![0x61u8, 0xc3u8, 0x83u8, 0xc2u8, 0xa7u8, 0xc3u8, 0xb0u8, 0xc5u8, 0xb8u8, 0xcbu8, 0x9cu8, 0xe2u8, 0x80u8, 0x9au8, 0xc3u8, 0x82u8, 0xc2u8, 0xa2u8, 0xc3u8, 0x85u8, 0xc2u8, 0xb4u8, 0xc3u8, 0x86u8, 0xe2u8, 0x80u8, 0xb0u8, 0xc3u8, 0x87u8, 0xc3u8, 0x87u8, 0xe2u8, 0x80u8, 0xa0u8];
    assert(forall|j: int| 0 <= j < c@.len() ==> c@[j] != 0);
    append_bytes(&mut r, c);
    let c = vec![0xc3u8, 0x87u8, 0xe2u8, 0x80u8, 0x94u8, 0xc3u8, 0x87u8, 0xc2u8, 0xb1u8, 0xc3u8, 0x88u8, 0xc5u8, 0x92u8, 0xc3u8, 0x88u8, 0xcbu8, 0x9cu8, 0xc3u8, 0x88u8, 0xc2u8, 0xa4u8, 0xc3u8, 0x88u8, 0xc2u8, 0xaeu8, 0xc3u8, 0x88u8, 0xc2u8, 0xb5u8, 0xc3u8, 0x88u8, 0xc2u8, 0xb8u8, 0xc3u8];
    assert(forall|j: int| 0 <= j < c@.len() ==> c@[j] != 0);
    append_bytes(&mut r, c);
    let c = vec![0xa1u8, 0xc2u8, 0xb8u8, 0xc3u8, 0xa1u8, 0xc2u8, 0xb9u8, 0xe2u8, 0x80u8, 0x98u8, 0xc3u8, 0xa1u8, 0xc2u8, 0xbau8, 0xc5u8, 0x93u8, 0xc3u8, 0xa1u8, 0xc2u8, 0xbau8, 0xc5u8, 0xbeu8, 0xc3u8, 0xa1u8, 0xc2u8, 0xbau8, 0xc5u8, 0xb8u8, 0xc3u8, 0xa1u8, 0xc2u8, 0xbbu8, 0xc6u8, 0x92u8];
    assert(forall|j: int| 0 <= j < c@.len() ==> c@[j] != 0);
    append_bytes(&mut r, c);
    let c = vec![0xc3u8, 0xa1u8, 0xc2u8, 0xbbu8, 0xc2u8, 0xbbu8, 0xc3u8, 0x89u8, 0xe2u8, 0x80u8, 0x93u8, 0xc3u8, 0x8au8, 0xc2u8, 0xadu8, 0xc3u8, 0x8au8, 0xc2u8, 0xbau8, 0x20u8, 0x20u8, 0x20u8, 0xc3u8, 0x8cu8, 0xe2u8, 0x80u8, 0xb0u8, 0xc3u8, 0x8du8, 0xc2u8, 0xb6u8, 0xc3u8, 0xa1u8, 0xc2u8];
    assert(forall|j: int| 0 <= j < c@.len() ==> c@[j] != 0);
    append_bytes(&mut r, c);
    let c = vec![0xbcu8, 0xc2u8, 0xa2u8, 0xc3u8, 0x90u8, 0xe2u8, 0x80u8, 0xb0u8, 0xc3u8, 0x95u8, 0xc6u8, 0x92u8, 0xc3u8, 0x99u8, 0xc2u8, 0xa3u8, 0xc3u8, 0x97u8, 0xe2u8, 0x80u8, 0x9cu8, 0xc3u8, 0x9cu8, 0xc2u8, 0xa3u8, 0xc3u8, 0x9eu8, 0xe2u8, 0x80u8, 0x9cu8, 0xc3u8, 0x9eu8, 0xe2u8, 0x80u8];
    assert(forall|j: int| 0 <= j < c@.len() ==> c@[j] != 0);
    append_bytes(&mut r, c);
    let c = vec![0x9cu8, 0xc3u8, 0xa0u8, 0xc2u8, 0xa8u8, 0xc2u8, 0xa6u8, 0xc3u8, 0xa0u8, 0xc2u8, 0xacu8, 0xe2u8, 0x80u8, 0x93u8, 0xc3u8, 0xa1u8, 0xcbu8, 0x86u8, 0xc2u8, 0xb6u8, 0xc3u8, 0xa1u8, 0xe2u8, 0x80u8, 0x9cu8, 0xe2u8, 0x80u8, 0xa6u8, 0xc3u8, 0xa1u8, 0xc2u8, 0xa0u8, 0xc5u8, 0xa0u8];
    assert(forall|j: int| 0 <= j < c@.len() ==> c@[j] != 0);
    append_bytes(&mut r, c);
    let c = vec![0xc3u8, 0xa1u8, 0xc2u8, 0xa1u8, 0xcbu8, 0x86u8, 0xc3u8, 0xa2u8, 0xe2u8, 0x82u8, 0xacu8, 0xc2u8, 0xa0u8, 0xc3u8, 0xa2u8, 0xe2u8, 0x82u8, 0xacu8, 0xe2u8, 0x80u8, 0x93u8, 0xc3u8, 0xa2u8, 0xc2u8, 0xb7u8, 0xc3u8, 0xa2u8, 0xe2u8, 0x80u8, 0x9au8, 0xc2u8, 0xa7u8, 0xc3u8, 0xa2u8];
    assert(forall|j: int| 0 <= j < c@.len() ==> c@[j] != 0);
    append_bytes(&mut r, c);
    let c = vec![0xe2u8, 0x80u8, 0x9eu8, 0xc2u8, 0xa7u8, 0xc3u8, 0xa2u8, 0xe2u8, 0x80u8, 0xa6u8, 0xc2u8, 0xa7u8, 0xc3u8, 0xa2u8, 0xe2u8, 0x80u8, 0xa0u8, 0xc2u8, 0xb7u8, 0xc3u8, 0xa2u8, 0xcbu8, 0x86u8, 0xc2u8, 0xa7u8, 0xc3u8, 0xa2u8, 0xe2u8, 0x80u8, 0x94u8, 0xc3u8, 0xa2u8, 0xe2u8, 0x80u8];
    assert(forall|j: int| 0 <= j < c@.len() ==> c@[j] != 0);
    append_bytes(&mut r, c);
    let c = vec![0x93u8, 0xc3u8, 0xa2u8, 0xe2u8, 0x80u8, 0x9cu8, 0xe2u8, 0x80u8, 0x9au8, 0xc3u8, 0xa2u8, 0xe2u8, 0x80u8, 0x9du8, 0xc2u8, 0xb3u8, 0xc3u8, 0xa2u8, 0xe2u8, 0x80u8, 0x93u8, 0xc3u8, 0xa2u8, 0xe2u8, 0x80u8, 0x93u8, 0xc2u8, 0xaeu8, 0xc3u8, 0xa2u8, 0xe2u8, 0x84u8, 0xa2u8, 0xc3u8];
    assert(forall|j: int| 0 <= j < c@.len() ==> c@[j] != 0);
    append_bytes(&mut r, c);
    let c = vec![0xb0u8, 0xc5u8, 0xb8u8, 0xc2u8, 0xadu8, 0xe2u8, 0x80u8, 0x9au8, 0xc3u8, 0xa2u8, 0xc5u8, 0x93u8, 0xc2u8, 0xbau8, 0xc3u8, 0xa1u8, 0xc5u8, 0xbdu8, 0xc2u8, 0xb5u8, 0xc3u8, 0xa0u8, 0xc2u8, 0xa0u8, 0xe2u8, 0x80u8, 0xa2u8, 0xc3u8, 0xa0u8, 0xc2u8, 0xa1u8, 0xe2u8, 0x80u8, 0xa2u8];
    assert(forall|j: int| 0 <= j < c@.len() ==> c@[j] != 0);
    append_bytes(&mut r, c);
    r.push(0);
    r
}

} // verus!
