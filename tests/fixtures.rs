use icicle_pingu::strcat::{self, StrcatTest, StrcatTestLong, StrcatTestStatic};
use icicle_pingu::strlen::{self, funny_bytes, StrlenTest, StrlenTestLong, StrlenTestStatic, FUNNY_STRING};
use icicle_pingu::value::{Param, Return};

#[test]
fn strlen_table_expects_c_lengths() {
    let tests = strlen::all_tests();
    assert_eq!(tests.len(), 12);
    let expected: Vec<u64> = vec![4, 4, 0, 0, 5, 7, 8, 1, 0, FUNNY_STRING.len() as u64 - 1];
    for (t, want) in tests.iter().zip(expected.iter()) {
        match t {
            StrlenTest::Static(s) => assert_eq!(s.result, *want),
            StrlenTest::Long(_) => panic!("static case expected"),
        }
    }
    match &tests[10] {
        StrlenTest::Long(l) => assert_eq!((l.data, l.data_len), (0x01, 0x1234)),
        _ => panic!("long case expected"),
    }
    match &tests[11] {
        StrlenTest::Long(l) => assert_eq!((l.data, l.data_len), (0xff, 0x4321)),
        _ => panic!("long case expected"),
    }
}

#[test]
fn strlen_cases_build_and_check() {
    let t = StrlenTestStatic::new(b"test\0123".to_vec());
    assert_eq!(t.result, 4);
    assert_eq!(t.params(), vec![Param::HeapData(b"test\0123".to_vec())]);
    assert!(t.check(&vec![Return::Usize(4)]));
    assert!(!t.check(&vec![Return::Usize(8)]));
    assert!(!t.check(&vec![Return::I64(4)]));
    let l = StrlenTestLong { data: 0x01, data_len: 0x1234 };
    assert_eq!(l.params(), vec![Param::HeapFill { byte: 0x01, len: 0x1234, extra: 0 }]);
    assert!(l.check(&vec![Return::Usize(0x1234)]));
    assert!(!l.check(&vec![]));
}

#[test]
fn strcat_table_expects_concatenations() {
    let tests = strcat::all_tests();
    assert_eq!(tests.len(), 17);
    let expected: Vec<&[u8]> = vec![
        b"test", b"test", b"", b"", b"test\xff", b"\x01\x02\x03\x04\r\n\x7f",
        b"\xff\xfe\xfd\xfc\xa0\xa1\xa2\xa3", b"\xff", b"",
    ];
    for (t, want) in tests.iter().zip(expected.iter()) {
        match t {
            StrcatTest::Static(s) => assert_eq!(s.result, want.to_vec()),
            StrcatTest::Long(_) => panic!("static case expected"),
        }
    }
    let table: Vec<&[u8]> = vec![b"\x01\x02\x03", b"\x01\x02\x03", b"\x01\x02\x03", b"\x01\x02\x02\x01", b"\x02\x01\x01\x02"];
    for (t, want) in tests[10..15].iter().zip(table.iter()) {
        match t {
            StrcatTest::Static(s) => assert_eq!(s.result, want.to_vec()),
            StrcatTest::Long(_) => panic!("static case expected"),
        }
    }
}

#[test]
fn strcat_empty_destination_scenario() {
    let t = StrcatTestStatic::new(b"abc\0".to_vec(), b"\0".to_vec());
    assert_eq!(t.result, b"abc".to_vec());
    assert_eq!(
        t.params(),
        vec![Param::HeapData(b"\0\0\0\0".to_vec()), Param::HeapData(b"abc\0".to_vec())]
    );
    assert!(t.check(&vec![Return::CString(b"abc".to_vec())]));
    assert!(!t.check(&vec![Return::CString(b"ab".to_vec())]));
}

#[test]
fn strcat_long_case_checks_exactly() {
    let t = StrcatTestLong { src: (0x01, 3), dst: (0x02, 2), res: (0x01, 3, 0x02, 2) };
    assert_eq!(
        t.params(),
        vec![
            Param::HeapFill { byte: 0x02, len: 2, extra: 3 },
            Param::HeapFill { byte: 0x01, len: 3, extra: 0 },
        ]
    );
    assert!(t.check(&vec![Return::CString(vec![2, 2, 1, 1, 1])]));
    assert!(!t.check(&vec![Return::CString(vec![2, 2, 1, 1])]));
    assert!(!t.check(&vec![Return::CString(vec![2, 1, 1, 1, 1])]));
}

#[test]
fn funny_bytes_are_the_mixed_script_string() {
    assert_eq!(funny_bytes(), FUNNY_STRING.as_bytes().to_vec());
    match &strlen::all_tests()[9] {
        StrlenTest::Static(s) => assert_eq!(s.data, FUNNY_STRING.as_bytes().to_vec()),
        StrlenTest::Long(_) => panic!("static case expected"),
    }
}

#[test]
fn strcat_table_sources_and_destinations() {
    let tests = strcat::all_tests();
    let pairs: Vec<(&[u8], &[u8])> = vec![
        (b"\x00", b"\x01\x02\x03\x00"),
        (b"\x01\x02\x03\x00", b"\x00\x01\x02\x03"),
        (b"\x00\x02\x03\x00", b"\x01\x02\x03\x00"),
        (b"\x02\x01\x00", b"\x01\x02\x00"),
        (b"\x01\x02\x00", b"\x02\x01\x00"),
    ];
    for (t, (src, dst)) in tests[10..15].iter().zip(pairs.iter()) {
        match t {
            StrcatTest::Static(s) => {
                assert_eq!(s.src, src.to_vec());
                assert_eq!(s.dst, dst.to_vec());
            }
            StrcatTest::Long(_) => panic!("static case expected"),
        }
    }
    match &tests[0] {
        StrcatTest::Static(s) => {
            assert_eq!(s.src, b"test\x00".to_vec());
            assert_eq!(s.dst, vec![0u8]);
        }
        StrcatTest::Long(_) => panic!("static case expected"),
    }
}
