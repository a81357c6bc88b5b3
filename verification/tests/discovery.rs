use wuma_tracker::discovery::{GWorldScan, ScanStep};
use wuma_tracker::mac_proc::MacProc;
use wuma_tracker::offsets::WuwaOffset;

fn offsets(global_gworld: u64) -> WuwaOffset {
    WuwaOffset {
        name: "v".to_string(),
        global_gworld,
        uworld_owninggameinstance: 0,
        ugameinstance_localplayers: 0,
        uplayer_playercontroller: 0,
        aplayercontroller_acknowlegedpawn: 0,
        aactor_rootcomponent: 0,
        uscenecomponent_componenttoworld: 0,
        uworld_persistentlevel: 0,
        ulevel_lastworldorigin: 0,
    }
}

fn first_probes(scan: &mut GWorldScan, n: usize) -> Vec<ScanStep> {
    let mut out = Vec::new();
    for _ in 0..n {
        out.push(scan.advance(false));
    }
    out
}

#[test]
fn scan_starts_at_the_stale_offset_and_widens() {
    let mut scan = MacProc::discover_global_gworld(&offsets(0x100));
    assert_eq!(
        first_probes(&mut scan, 5),
        vec![
            ScanStep::Probe(0x100),
            ScanStep::Probe(0x108),
            ScanStep::Probe(0xF8),
            ScanStep::Probe(0x110),
            ScanStep::Probe(0xF0),
        ]
    );
}

#[test]
fn scan_reports_the_candidate_that_passed() {
    let mut scan = GWorldScan::new(0x100);
    assert_eq!(scan.advance(false), ScanStep::Probe(0x100));
    assert_eq!(scan.advance(false), ScanStep::Probe(0x108));
    assert_eq!(scan.advance(true), ScanStep::Found(0x108));
}

#[test]
fn scan_skips_non_positive_candidates() {
    let mut scan = GWorldScan::new(0);
    assert_eq!(first_probes(&mut scan, 3), vec![ScanStep::Probe(8), ScanStep::Probe(16), ScanStep::Probe(24)]);
    let mut scan = GWorldScan::new(u64::MAX);
    assert_eq!(first_probes(&mut scan, 2), vec![ScanStep::Probe(7), ScanStep::Probe(15)]);
}

#[test]
fn scan_ends_at_six_megabytes() {
    let mut scan = GWorldScan::new(0x10);
    let mut last = 0;
    let mut count = 0;
    loop {
        match scan.advance(false) {
            ScanStep::Probe(c) => {
                last = c;
                count += 1;
            },
            ScanStep::Exhausted => break,
            other => panic!("unexpected {:?}", other),
        }
    }
    assert_eq!(last, 0x10 + 0x60_0000);
    // 0x10, then 0xC0000 candidates above and the one positive below (8).
    assert_eq!(count, 1 + 0xC_0000 + 1);
}

#[test]
fn scan_of_negative_offsets_finds_nothing() {
    let mut scan = GWorldScan::new(0x8000_0000_1000_0000);
    assert_eq!(scan.advance(false), ScanStep::Exhausted);
}

#[test]
fn scan_reports_overflow() {
    let mut scan = GWorldScan::new(i64::MAX as u64 - 4);
    assert_eq!(scan.advance(false), ScanStep::Probe(i64::MAX as u64 - 4));
    assert_eq!(scan.advance(false), ScanStep::Overflow);
    let mut scan = GWorldScan::new(i64::MIN as u64);
    assert_eq!(scan.advance(false), ScanStep::Overflow);
}
