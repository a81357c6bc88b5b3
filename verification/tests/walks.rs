use std::collections::{HashMap, HashSet};
use wuma_tracker::fetch::{FetchOutcome, ReadPlan, ReadRequest};
use wuma_tracker::mac_proc::MacProc;
use wuma_tracker::offsets::WuwaOffset;
use wuma_tracker::errors::NativeError;

const BASE: u64 = 0x1000_0000;

fn offsets() -> WuwaOffset {
    WuwaOffset {
        name: "test".to_string(),
        global_gworld: 0x100,
        uworld_owninggameinstance: 0x10,
        ugameinstance_localplayers: 0x20,
        uplayer_playercontroller: 0x30,
        aplayercontroller_acknowlegedpawn: 0x40,
        aactor_rootcomponent: 0x50,
        uscenecomponent_componenttoworld: 0x60,
        uworld_persistentlevel: 0x70,
        ulevel_lastworldorigin: 0x80,
    }
}

struct Memory {
    pointers: HashMap<u64, u64>,
    values: HashSet<u64>,
}

fn memory() -> Memory {
    let mut pointers = HashMap::new();
    pointers.insert(BASE + 0x100, 0xFFFF_0000_2000_0000);
    pointers.insert(0x2000_0010, 0x3000_0000);
    pointers.insert(0x3000_0020, 0x4000_0000);
    pointers.insert(0x4000_0000, 0x5000_0000);
    pointers.insert(0x5000_0030, 0x6000_0000);
    pointers.insert(0x6000_0040, 0x7000_0000);
    pointers.insert(0x7000_0050, 0x8000_0000);
    pointers.insert(0x2000_0070, 0x9000_0000);
    let mut values = HashSet::new();
    values.insert(0x8000_0060);
    values.insert(0x9000_0080);
    Memory { pointers, values }
}

/// Runs a walk against `mem`, returning the addresses read.
fn run(plan: &mut ReadPlan, mem: &Memory) -> Vec<ReadRequest> {
    let mut seen = Vec::new();
    loop {
        let r = plan.request();
        seen.push(r);
        match r {
            ReadRequest::Pointer(a) => plan.supply_pointer(mem.pointers.get(&a).copied()),
            ReadRequest::Value(a) => plan.supply_value(mem.values.contains(&a)),
            ReadRequest::Overflow | ReadRequest::Complete => return seen,
        }
    }
}

#[test]
fn location_walk_reads_both_chains() {
    let proc = MacProc::from_parts(1, 1, BASE);
    let mut plan = proc.get_location_with_offset(&offsets());
    let seen = run(&mut plan, &memory());
    assert_eq!(
        seen,
        vec![
            ReadRequest::Pointer(BASE + 0x100),
            ReadRequest::Pointer(0x2000_0010),
            ReadRequest::Pointer(0x3000_0020),
            ReadRequest::Pointer(0x4000_0000),
            ReadRequest::Pointer(0x5000_0030),
            ReadRequest::Pointer(0x6000_0040),
            ReadRequest::Pointer(0x7000_0050),
            ReadRequest::Value(0x8000_0060),
            ReadRequest::Pointer(BASE + 0x100),
            ReadRequest::Pointer(0x2000_0070),
            ReadRequest::Value(0x9000_0080),
            ReadRequest::Complete,
        ]
    );
    assert!(matches!(plan.outcome(), FetchOutcome::Reached));
}

#[test]
fn location_walk_names_the_broken_link() {
    let proc = MacProc::from_parts(1, 1, BASE);
    let mut mem = memory();
    mem.pointers.remove(&0x3000_0020);
    let mut plan = proc.get_location_with_offset(&offsets());
    run(&mut plan, &mem);
    match plan.outcome() {
        FetchOutcome::Failed(NativeError::PointerChainError { message }) => assert_eq!(
            message,
            "'TArray<*LocalPlayers>' 위치 (30000020)의 주소 값을 읽지 못했습니다."
        ),
        _ => panic!("expected a pointer-chain failure"),
    }
}

#[test]
fn location_walk_reports_an_unreadable_transform() {
    let proc = MacProc::from_parts(1, 1, BASE);
    let mut mem = memory();
    mem.values.remove(&0x8000_0060);
    let mut plan = proc.get_location_with_offset(&offsets());
    run(&mut plan, &mem);
    match plan.outcome() {
        FetchOutcome::Failed(NativeError::ValueReadError { message }) => {
            assert_eq!(message, "FTransform 위치 (80000060)의 값을 읽지 못했습니다.")
        },
        _ => panic!("expected a value failure"),
    }
}

#[test]
fn location_walk_reports_an_unreadable_world_origin() {
    let proc = MacProc::from_parts(1, 1, BASE);
    let mut mem = memory();
    mem.values.remove(&0x9000_0080);
    let mut plan = proc.get_location_with_offset(&offsets());
    run(&mut plan, &mem);
    match plan.outcome() {
        FetchOutcome::Failed(NativeError::ValueReadError { message }) => {
            assert_eq!(message, "LastWorldOrigin 위치 (90000080)의 값을 읽지 못했습니다.")
        },
        _ => panic!("expected a value failure"),
    }
}

#[test]
fn location_walk_reports_a_null_world() {
    let proc = MacProc::from_parts(1, 1, BASE);
    let mut mem = memory();
    mem.pointers.insert(BASE + 0x100, 0);
    let mut plan = proc.get_location_with_offset(&offsets());
    run(&mut plan, &mem);
    match plan.outcome() {
        FetchOutcome::Failed(NativeError::PointerChainError { message }) => {
            assert_eq!(message, "'GWorld' 포인터가 유효하지 않습니다. raw=0, normalized=0")
        },
        _ => panic!("expected a pointer-chain failure"),
    }
}

#[test]
fn walk_reports_an_overflowing_address() {
    let proc = MacProc::from_parts(1, 1, u64::MAX - 0x10);
    let mut plan = proc.get_location_with_offset(&offsets());
    assert_eq!(plan.request(), ReadRequest::Overflow);
}

#[test]
fn probe_passes_on_a_readable_transform() {
    let proc = MacProc::from_parts(1, 1, BASE);
    let mut plan = proc.quick_chain_probe(0x100, &offsets());
    let seen = run(&mut plan, &memory());
    assert_eq!(seen.len(), 9);
    assert_eq!(seen[7], ReadRequest::Value(0x8000_0060));
    assert!(matches!(plan.outcome(), FetchOutcome::Reached));
}

#[test]
fn probe_misses_quietly() {
    let proc = MacProc::from_parts(1, 1, BASE);
    let mut plan = proc.quick_chain_probe(0x108, &offsets());
    let seen = run(&mut plan, &memory());
    assert_eq!(seen, vec![ReadRequest::Pointer(BASE + 0x108), ReadRequest::Complete]);
    assert!(matches!(plan.outcome(), FetchOutcome::Missed));
}

#[test]
fn probe_reads_what_the_adjusted_location_walk_reads_first() {
    let proc = MacProc::from_parts(1, 1, BASE);
    let mut probe = proc.quick_chain_probe(0x100, &offsets());
    let mut moved = offsets().adjusted(0x100);
    moved.name = "moved".to_string();
    let mut full = proc.get_location_with_offset(&moved);
    let a = run(&mut probe, &memory());
    let b = run(&mut full, &memory());
    assert_eq!(a[..8], b[..8]);
}

#[test]
fn probe_passes_exactly_when_the_moved_location_walk_gets_past_the_transform() {
    let proc = MacProc::from_parts(1, 1, BASE);
    let moved = offsets().adjusted(0x100);
    let mut broken_transform = memory();
    broken_transform.values.remove(&0x8000_0060);
    let mut broken_origin = memory();
    broken_origin.values.remove(&0x9000_0080);
    let mut broken_link = memory();
    broken_link.pointers.remove(&0x5000_0030);
    let cases = [(memory(), true), (broken_transform, false), (broken_origin, true), (broken_link, false)];
    for (mem, passes) in cases.iter() {
        let mut probe = proc.quick_chain_probe(0x100, &offsets());
        run(&mut probe, mem);
        assert_eq!(matches!(probe.outcome(), FetchOutcome::Reached), *passes);
        let mut full = proc.get_location_with_offset(&moved);
        let seen = run(&mut full, mem);
        let got_past_transform = seen.len() > 9 || matches!(full.outcome(), FetchOutcome::Reached);
        assert_eq!(got_past_transform, *passes);
    }
}
