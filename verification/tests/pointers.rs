use wuma_tracker::errors::{Label, NativeError};
use wuma_tracker::mac_proc::MacProc;
use wuma_tracker::text::push_hex;

fn chain_message(r: Result<u64, NativeError>) -> String {
    match r {
        Err(NativeError::PointerChainError { message }) => message,
        other => panic!("expected a pointer-chain error, got {:?}", other),
    }
}

#[test]
fn normalize_pointer_strips_tag_bits() {
    assert_eq!(MacProc::normalize_pointer(0xFFFF_0000_1234_5678), 0x1234_5678);
    assert_eq!(MacProc::normalize_pointer(0x8000_7FFF_FFFF_0000), 0x7FFF_FFFF_0000);
}

#[test]
fn normalize_pointer_rejects_small_values() {
    assert_eq!(MacProc::normalize_pointer(0), 0);
    assert_eq!(MacProc::normalize_pointer(0xFFFF), 0);
    assert_eq!(MacProc::normalize_pointer(0xABCD_0000_0000_FFFF), 0);
    assert_eq!(MacProc::normalize_pointer(0x1_0000), 0x1_0000);
}

#[test]
fn normalize_pointer_is_idempotent_on_examples() {
    for raw in [0u64, 0xFFFF, 0x1_0000, 0xFFFF_0000_1234_5678, u64::MAX] {
        let once = MacProc::normalize_pointer(raw);
        assert_eq!(MacProc::normalize_pointer(once), once);
    }
}

#[test]
fn read_pointer_returns_the_normalized_pointer() {
    let r = MacProc::read_pointer(0x1000, Label::GWorld, Some(0xAB00_0000_1234_0000));
    assert_eq!(r.unwrap(), 0x1234_0000);
}

#[test]
fn read_pointer_reports_an_unreadable_address() {
    let m = chain_message(MacProc::read_pointer(0x1A2B, Label::GWorld, None));
    assert_eq!(m, "'GWorld' 위치 (1A2B)의 주소 값을 읽지 못했습니다.");
}

#[test]
fn read_pointer_reports_a_null_pointer() {
    let m = chain_message(MacProc::read_pointer(0x10, Label::Pawn, Some(0)));
    assert_eq!(m, "'APawn' 포인터가 유효하지 않습니다. raw=0, normalized=0");
}

#[test]
fn read_pointer_reports_a_tagged_small_value() {
    let m = chain_message(MacProc::read_pointer(0x10, Label::LocalPlayers, Some(0xFF00_0000_0000_0FFF)));
    assert_eq!(m, "'TArray<*LocalPlayers>' 포인터가 유효하지 않습니다. raw=FF00000000000FFF, normalized=0");
}

#[test]
fn read_pointer_quiet_drops_the_message() {
    assert_eq!(MacProc::read_pointer_quiet(None), None);
    assert_eq!(MacProc::read_pointer_quiet(Some(5)), None);
    assert_eq!(MacProc::read_pointer_quiet(Some(0xFFFF_0000_0002_0000)), Some(0x2_0000));
}

#[test]
fn push_hex_renders_upper_case_without_leading_zeros() {
    let mut s = String::from("x=");
    push_hex(&mut s, 0);
    s.push(' ');
    push_hex(&mut s, 0xBEEF);
    s.push(' ');
    push_hex(&mut s, u64::MAX);
    s.push(' ');
    push_hex(&mut s, 0x1000_0000);
    assert_eq!(s, "x=0 BEEF FFFFFFFFFFFFFFFF 10000000");
}

#[test]
fn push_hex_matches_std_formatting() {
    for x in [1u64, 15, 16, 255, 256, 0x7FFF_FFFF_FFFF, 0x1234_5678_9ABC_DEF0] {
        let mut s = String::new();
        push_hex(&mut s, x);
        assert_eq!(s, format!("{:X}", x));
    }
}

#[test]
fn task_port_checks() {
    assert_eq!(MacProc::check_task_port(42, 0, 7), Ok(()));
    assert_eq!(
        MacProc::check_task_port(42, 5, 0),
        Err(wuma_tracker::errors::ConnectError::PermissionDenied { pid: 42 })
    );
    assert_eq!(
        MacProc::check_task_port(42, 4, 0),
        Err(wuma_tracker::errors::ConnectError::TaskForPidFailed { pid: 42, kr: 4 })
    );
    assert_eq!(
        MacProc::check_task_port(42, 0, 0),
        Err(wuma_tracker::errors::ConnectError::TaskForPidFailed { pid: 42, kr: 0 })
    );
}

#[test]
fn liveness_follows_the_null_signal() {
    let p = MacProc::from_parts(77, 1, 0);
    assert!(p.is_alive(0, None));
    assert!(p.is_alive(-1, Some(1)));
    assert!(!p.is_alive(-1, Some(3)));
    assert!(!p.is_alive(-1, None));
    let gone = MacProc::from_parts(0, 1, 0);
    assert!(!gone.is_alive(0, None));
}

#[test]
fn signal_target_skips_non_positive_pids() {
    assert_eq!(MacProc::from_parts(0, 1, 0).signal_target(), None);
    assert_eq!(MacProc::from_parts(-4, 1, 0).signal_target(), None);
    assert_eq!(MacProc::from_parts(77, 1, 0).signal_target(), Some(77));
}

#[test]
fn from_parts_keeps_the_identity() {
    let p = MacProc::from_parts(9, 3, 0x1_0000_0000);
    assert_eq!(p.pid_value(), 9);
    assert_eq!(p.task_port(), 3);
    assert_eq!(p.base_addr, 0x1_0000_0000);
    assert_eq!(p.get_active_offset_name(), None);
}
