use std::collections::HashMap;

use icicle_pingu::abi::{check_shape, result_reg_of, Arch, Reg};
use icicle_pingu::arena::{Arena, Mapping};
use icicle_pingu::call::{Adapter, CallPlan, Step};
use icicle_pingu::decode::{check_exit, fill_result, finish_call, result_regs, CStrReader};
use icicle_pingu::error::{CallError, Region};
use icicle_pingu::value::{Param, Return};

const STACK: u64 = 0x1000_0000;
const HEAP: u64 = 0x2000_0000;
const MAX: u64 = 0x1000_0000;
const PAGE: u64 = 0x1000;

fn adapter(arch: Arch) -> Adapter {
    Adapter::new(arch, Arena::new(STACK, MAX, HEAP, MAX, PAGE))
}

/// A toy machine that performs planned steps.
#[derive(Default)]
struct Machine {
    mem: HashMap<u64, u8>,
    regs: HashMap<Reg, u64>,
}

impl Machine {
    fn run(&mut self, plan: &CallPlan, params: &[Param]) {
        for step in &plan.steps {
            match *step {
                Step::MapPages(Mapping { addr, len }) => {
                    for a in addr..addr + len {
                        self.mem.entry(a).or_insert(0);
                    }
                }
                Step::CopyParam { addr, index } => match &params[index] {
                    Param::HeapData(d) => {
                        for (k, b) in d.iter().enumerate() {
                            self.mem.insert(addr + k as u64, *b);
                        }
                    }
                    _ => panic!("not heap data"),
                },
                Step::Fill { addr, byte, len } => {
                    for a in addr..addr + len {
                        self.mem.insert(a, byte);
                    }
                }
                Step::WriteU32 { addr, value } => {
                    for (k, b) in value.to_le_bytes().iter().enumerate() {
                        self.mem.insert(addr + k as u64, *b);
                    }
                }
                Step::WriteU64 { addr, value } => {
                    for (k, b) in value.to_le_bytes().iter().enumerate() {
                        self.mem.insert(addr + k as u64, *b);
                    }
                }
                Step::SetReg { reg, value } => {
                    self.regs.insert(reg, value);
                }
            }
        }
    }

    fn read_cstr(&self, addr: u64) -> Vec<u8> {
        let mut reader = CStrReader::new(addr, 1 << 20);
        while let Some(a) = reader.next_addr() {
            reader.push(*self.mem.get(&a).expect("unmapped"));
        }
        reader.into_bytes()
    }

    fn u32_at(&self, addr: u64) -> u32 {
        let b: Vec<u8> = (0..4).map(|k| self.mem[&(addr + k)]).collect();
        u32::from_le_bytes([b[0], b[1], b[2], b[3]])
    }
}

#[test]
fn arena_grows_by_whole_pages() {
    let mut a = Arena::new(STACK, MAX, HEAP, MAX, PAGE);
    assert_eq!(a.set_stack_len(0x10).unwrap(), Some(Mapping { addr: STACK, len: 0x1000 }));
    assert_eq!(a.stack_size, 0x1000);
    assert_eq!(a.set_stack_len(0x800).unwrap(), None);
    assert_eq!(a.set_stack_len(0x1001).unwrap(), Some(Mapping { addr: STACK + 0x1000, len: 0x1000 }));
    assert_eq!(a.stack_size, 0x2000);
}

#[test]
fn malloc_is_a_bump_allocator() {
    let mut a = Arena::new(STACK, MAX, HEAP, MAX, PAGE);
    let (p, m) = a.malloc(5).unwrap();
    assert_eq!(p, HEAP);
    assert_eq!(m, Some(Mapping { addr: HEAP, len: 0x1000 }));
    let (q, m) = a.malloc(0x1000).unwrap();
    assert_eq!(q, HEAP + 5);
    assert_eq!(m, Some(Mapping { addr: HEAP + 0x1000, len: 0x1000 }));
    assert_eq!(a.heap_used, 0x1005);
    assert_eq!(a.heap_size, 0x2000);
    let (r, m) = a.malloc(3).unwrap();
    assert_eq!(r, HEAP + 0x1005);
    assert_eq!(m, None);
}

#[test]
fn free_all_keeps_committed_pages() {
    let mut a = Arena::new(STACK, MAX, HEAP, MAX, PAGE);
    a.malloc(0x1800).unwrap();
    a.free_all();
    assert_eq!(a.heap_used, 0);
    assert_eq!(a.heap_size, 0x2000);
    let (p, m) = a.malloc(0x10).unwrap();
    assert_eq!(p, HEAP);
    assert_eq!(m, None);
}

#[test]
fn oversized_regions_change_nothing() {
    let mut a = Arena::new(STACK, 0x2000, HEAP, 0x2000, PAGE);
    a.malloc(0x100).unwrap();
    let before = a;
    assert_eq!(a.malloc(0x1f01), Err(CallError::OversizedRegion(Region::Heap)));
    assert_eq!(a, before);
    assert_eq!(a.set_stack_len(0x2001), Err(CallError::OversizedRegion(Region::Stack)));
    assert_eq!(a, before);
    // a page-rounded commit that passes the maximum is refused too
    let mut b = Arena::new(STACK, 0x1800, HEAP, 0x1800, PAGE);
    assert_eq!(b.set_stack_len(0x1001), Err(CallError::OversizedRegion(Region::Stack)));
    assert_eq!(b.malloc(0x1001), Err(CallError::OversizedRegion(Region::Heap)));
    assert_eq!(b.heap_size, 0);
}

#[test]
fn x86_64_strlen_scenario() {
    let mut ad = adapter(Arch::X86_64);
    let params = vec![Param::HeapData(b"test\0".to_vec())];
    let mut results = vec![Return::Usize(0)];
    let plan = ad.plan_call(0x4000, 0x5000, &params, &results).unwrap();
    assert_eq!(plan.args, vec![HEAP]);
    assert_eq!(plan.sp, STACK + 0x1000 - 8);
    assert!(plan.steps.contains(&Step::CopyParam { addr: HEAP, index: 0 }));
    assert!(plan.steps.contains(&Step::SetReg { reg: Reg::Rdi, value: HEAP }));
    assert!(plan.steps.contains(&Step::WriteU64 { addr: plan.sp, value: 0x5000 }));
    assert_eq!(plan.steps.last(), Some(&Step::SetReg { reg: Reg::Rsp, value: plan.sp }));
    let mut m = Machine::default();
    m.run(&plan, &params);
    assert_eq!(m.read_cstr(m.regs[&Reg::Rdi]), b"test".to_vec());
    // the guest's strlen returns 4 in RAX
    assert_eq!(result_reg_of(Arch::X86_64, &results[0]), Reg::Rax);
    fill_result(&mut results[0], 4);
    assert_eq!(results[0], Return::Usize(4));
}

#[test]
fn arm_strlen_long_scenario() {
    let mut ad = adapter(Arch::Arm);
    let params = vec![Param::HeapFill { byte: 0x01, len: 0x1234, extra: 0 }];
    let mut results = vec![Return::Usize(0)];
    let plan = ad.plan_call(0x4000, 0x5000, &params, &results).unwrap();
    assert_eq!(plan.args, vec![HEAP]);
    assert!(plan.steps.contains(&Step::Fill { addr: HEAP, byte: 0x01, len: 0x1234 }));
    assert!(plan.steps.contains(&Step::Fill { addr: HEAP + 0x1234, byte: 0, len: 1 }));
    assert!(plan.steps.contains(&Step::SetReg { reg: Reg::R0, value: HEAP }));
    assert!(plan.steps.contains(&Step::SetReg { reg: Reg::Lr, value: 0x5000 }));
    assert_eq!(ad.arena.heap_used, 0x1235);
    let mut m = Machine::default();
    m.run(&plan, &params);
    assert_eq!(m.read_cstr(HEAP).len(), 0x1234);
    assert_eq!(result_reg_of(Arch::Arm, &results[0]), Reg::R0);
    fill_result(&mut results[0], 0x1234);
    assert_eq!(results[0], Return::Usize(0x1234));
}

#[test]
fn aarch64_cos_float_scenario() {
    let mut ad = adapter(Arch::Aarch64);
    let params = vec![Param::F64(0.0f64.to_bits())];
    let mut results = vec![Return::F64(0)];
    let plan = ad.plan_call(0x4000, 0x5000, &params, &results).unwrap();
    assert!(plan.steps.contains(&Step::SetReg { reg: Reg::D(0), value: 0 }));
    assert!(plan.steps.contains(&Step::SetReg { reg: Reg::X(30), value: 0x5000 }));
    assert_eq!(result_reg_of(Arch::Aarch64, &results[0]), Reg::D(0));
    fill_result(&mut results[0], 1.0f64.to_bits());
    match results[0] {
        Return::F64(bits) => assert_eq!(f64::from_bits(bits), 1.0),
        _ => panic!("wrong result kind"),
    }
}

#[test]
fn aarch64_mixed_arguments_use_separate_register_classes() {
    let mut ad = adapter(Arch::Aarch64);
    let params = vec![Param::F32(1.5f32.to_bits()), Param::Usize(7), Param::F64(2.5f64.to_bits())];
    let plan = ad.plan_call(0x4000, 0x5000, &params, &vec![]).unwrap();
    assert!(plan.steps.contains(&Step::SetReg { reg: Reg::S(0), value: 1.5f32.to_bits() as u64 }));
    assert!(plan.steps.contains(&Step::SetReg { reg: Reg::X(0), value: 7 }));
    assert!(plan.steps.contains(&Step::SetReg { reg: Reg::D(1), value: 2.5f64.to_bits() }));
}

#[test]
fn strcat_scenario() {
    let mut ad = adapter(Arch::X86);
    let params = vec![Param::HeapData(b"\0\0\0\0".to_vec()), Param::HeapData(b"abc\0".to_vec())];
    let mut results = vec![Return::CString(Vec::new())];
    let plan = ad.plan_call(0x4000, 0x5000, &params, &results).unwrap();
    assert_eq!(plan.args, vec![HEAP, HEAP + 4]);
    // cdecl: return address on top, then the arguments in order
    assert_eq!(plan.sp, STACK + 0x1000 - 12);
    let mut m = Machine::default();
    m.run(&plan, &params);
    assert_eq!(m.u32_at(plan.sp), 0x5000);
    assert_eq!(m.u32_at(plan.sp + 4), HEAP as u32);
    assert_eq!(m.u32_at(plan.sp + 8), (HEAP + 4) as u32);
    // the guest appends src to dst and returns dst in EAX
    for (k, b) in b"abc\0".iter().enumerate() {
        m.mem.insert(HEAP + k as u64, *b);
    }
    assert_eq!(result_reg_of(Arch::X86, &results[0]), Reg::Eax);
    results[0] = Return::CString(m.read_cstr(HEAP));
    assert_eq!(results[0], Return::CString(b"abc".to_vec()));
}

#[test]
fn x86_64_eight_integers_are_too_many() {
    let mut ad = adapter(Arch::X86_64);
    let params: Vec<Param> = (0..8).map(Param::Usize).collect();
    let before = ad.arena;
    assert_eq!(ad.plan_call(0x4000, 0x5000, &params, &vec![]).unwrap_err(), CallError::TooManyArguments);
    assert_eq!(ad.arena, before);
    let six: Vec<Param> = (0..6).map(Param::Usize).collect();
    let plan = ad.plan_call(0x4000, 0x5000, &six, &vec![]).unwrap();
    assert!(plan.steps.contains(&Step::SetReg { reg: Reg::R9, value: 5 }));
}

#[test]
fn unsupported_shapes_are_refused() {
    let floats = vec![Param::F64(0)];
    assert_eq!(check_shape(Arch::X86, &floats, &vec![]), Err(CallError::UnsupportedShape));
    assert_eq!(check_shape(Arch::Arm, &vec![Param::Usize(1), Param::Usize(2)], &vec![]), Err(CallError::UnsupportedShape));
    let mut arm = adapter(Arch::Arm);
    let two = vec![Param::HeapData(b"a\0".to_vec()), Param::Usize(2)];
    assert_eq!(arm.plan_call(0x4000, 0x5000, &two, &vec![]).unwrap_err(), CallError::UnsupportedShape);
    assert_eq!(
        check_shape(Arch::X86_64, &vec![], &vec![Return::Usize(0), Return::Usize(0)]),
        Err(CallError::UnsupportedShape)
    );
    assert_eq!(check_shape(Arch::Arm, &vec![], &vec![Return::F64(0)]), Err(CallError::UnsupportedShape));
    assert_eq!(check_shape(Arch::Aarch64, &vec![], &vec![Return::I64(0)]), Ok(()));
}

#[test]
fn heap_starts_empty_for_every_call() {
    let mut ad = adapter(Arch::X86_64);
    let big = vec![Param::HeapData(vec![1u8; 0x1800])];
    ad.plan_call(0x4000, 0x5000, &big, &vec![]).unwrap();
    assert_eq!(ad.arena.heap_used, 0x1800);
    let committed = ad.arena.heap_size;
    let small = vec![Param::HeapData(b"hi\0".to_vec())];
    let plan = ad.plan_call(0x4000, 0x5000, &small, &vec![]).unwrap();
    assert_eq!(plan.args, vec![HEAP]);
    assert_eq!(ad.arena.heap_used, 3);
    assert_eq!(ad.arena.heap_size, committed);
}

#[test]
fn oversized_call_is_refused() {
    let mut ad = Adapter::new(Arch::X86_64, Arena::new(STACK, MAX, HEAP, 0x2000, PAGE));
    let params = vec![Param::HeapFill { byte: 1, len: 0x2000, extra: 0 }];
    assert_eq!(
        ad.plan_call(0x4000, 0x5000, &params, &vec![]).unwrap_err(),
        CallError::OversizedRegion(Region::Heap)
    );
    assert_eq!(ad.arena.heap_size, 0);
    assert_eq!(ad.arena.stack_size, 0);
    let huge = vec![Param::HeapFill { byte: 1, len: u64::MAX, extra: 1 }];
    assert_eq!(
        ad.plan_call(0x4000, 0x5000, &huge, &vec![]).unwrap_err(),
        CallError::OversizedRegion(Region::Heap)
    );
    let mut small_stack = Adapter::new(Arch::X86, Arena::new(STACK, 0x800, HEAP, MAX, PAGE));
    assert_eq!(
        small_stack.plan_call(0x4000, 0x5000, &vec![], &vec![]).unwrap_err(),
        CallError::OversizedRegion(Region::Stack)
    );
}

#[test]
fn heap_data_round_trips_through_a_cstring() {
    for data in [b"x\0".to_vec(), b"hello world\0".to_vec(), vec![0xffu8, 0x80, 0x7f, 0]] {
        for arch in [Arch::X86, Arch::X86_64, Arch::Arm, Arch::Aarch64] {
            let mut ad = adapter(arch);
            let params = vec![Param::HeapData(data.clone())];
            let plan = ad.plan_call(0x4000, 0x5000, &params, &vec![Return::CString(Vec::new())]).unwrap();
            let mut m = Machine::default();
            m.run(&plan, &params);
            assert_eq!(m.read_cstr(plan.args[0]), data[..data.len() - 1].to_vec());
        }
    }
}

#[test]
fn results_decode_from_raw_register_values() {
    let mut r = Return::I64(0);
    fill_result(&mut r, u64::MAX);
    assert_eq!(r, Return::I64(-1));
    let mut f = Return::F32(0);
    fill_result(&mut f, 0xdead_beef_3f80_0000);
    assert_eq!(f, Return::F32(0x3f80_0000));
    let mut s = Return::CString(b"kept".to_vec());
    fill_result(&mut s, 7);
    assert_eq!(s, Return::CString(b"kept".to_vec()));
}

#[test]
fn reader_stops_at_zero_or_maximum() {
    let mut r = CStrReader::new(0x100, 3);
    assert_eq!(r.next_addr(), Some(0x100));
    r.push(b'a');
    assert_eq!(r.next_addr(), Some(0x101));
    r.push(b'b');
    r.push(b'c');
    assert_eq!(r.next_addr(), None);
    assert_eq!(r.into_bytes(), b"abc".to_vec());
    let mut z = CStrReader::new(0x100, 10);
    z.push(b'q');
    z.push(0);
    assert_eq!(z.next_addr(), None);
    assert_eq!(z.into_bytes(), b"q".to_vec());
}

#[test]
fn exit_must_be_the_return_breakpoint() {
    assert_eq!(check_exit(Arch::X86, true, 0x5000, 0x5000, String::new()), Ok(()));
    assert_eq!(
        check_exit(Arch::X86, false, 0x4010, 0x5000, "UnhandledException".to_string()),
        Err(CallError::UnexpectedHalt { arch: Arch::X86, pc: 0x4010, reason: "UnhandledException".to_string() })
    );
    assert!(check_exit(Arch::Aarch64, true, 0x4010, 0x5000, String::new()).is_err());
}

#[test]
fn finish_call_decodes_only_after_a_clean_stop() {
    let mut results = vec![Return::Usize(0), Return::F32(0), Return::CString(Vec::new())];
    assert_eq!(result_regs(Arch::X86_64, &results), vec![Reg::Rax, Reg::Xmm(0), Reg::Rax]);
    assert_eq!(result_regs(Arch::Aarch64, &results), vec![Reg::X(0), Reg::S(0), Reg::X(0)]);
    let raws = vec![5u64, 0x1_4048_f5c3, 0x2000_0000];
    let before = results.clone();
    let err = finish_call(Arch::X86_64, true, 0x4000, 0x5000, "Breakpoint".to_string(), &raws, &mut results);
    assert_eq!(err, Err(CallError::UnexpectedHalt { arch: Arch::X86_64, pc: 0x4000, reason: "Breakpoint".to_string() }));
    assert_eq!(results, before);
    finish_call(Arch::X86_64, true, 0x5000, 0x5000, String::new(), &raws, &mut results).unwrap();
    assert_eq!(results, vec![Return::Usize(5), Return::F32(0x4048_f5c3), Return::CString(Vec::new())]);
}
