use wuma_tracker::errors::NativeError;
use wuma_tracker::locator::{LocateStep, Locator};
use wuma_tracker::mac_proc::MacProc;
use wuma_tracker::offsets::WuwaOffset;

fn offsets(name: &str, global_gworld: u64) -> WuwaOffset {
    WuwaOffset {
        name: name.to_string(),
        global_gworld,
        uworld_owninggameinstance: 1,
        ugameinstance_localplayers: 2,
        uplayer_playercontroller: 3,
        aplayercontroller_acknowlegedpawn: 4,
        aactor_rootcomponent: 5,
        uscenecomponent_componenttoworld: 6,
        uworld_persistentlevel: 7,
        ulevel_lastworldorigin: 8,
    }
}

fn chain_error(text: &str) -> NativeError {
    NativeError::PointerChainError { message: text.to_string() }
}

fn attempt_name(l: &Locator) -> String {
    match l.step() {
        LocateStep::Attempt(o) => o.name,
        _ => panic!("expected an attempt"),
    }
}

fn error_text(r: Result<Option<WuwaOffset>, NativeError>) -> String {
    match r {
        Err(e) => e.message(),
        Ok(_) => panic!("expected an error"),
    }
}

#[test]
fn dead_process_is_reported_terminated() {
    let l = Locator::start(false, &Some(vec![offsets("a", 1)]), &None);
    assert!(matches!(l.step(), LocateStep::Done));
    assert!(matches!(l.into_result(), Err(NativeError::ProcessTerminated)));
}

#[test]
fn missing_offsets_mean_loading() {
    let l = Locator::start(true, &None, &None);
    assert_eq!(error_text(l.into_result()), "오프셋 데이터를 불러오는 중입니다...");
}

#[test]
fn kept_offsets_are_tried_alone() {
    let mut proc = MacProc::from_parts(1, 1, 0x1000);
    let mut first = proc.get_location(true, &Some(vec![offsets("kept", 1)]));
    first.report_attempt(Ok(()));
    assert!(proc.conclude_location(first).is_ok());
    let mut l = proc.get_location(true, &Some(vec![offsets("a", 1), offsets("b", 2)]));
    assert_eq!(attempt_name(&l), "kept");
    l.report_attempt(Err(chain_error("boom")));
    assert!(matches!(l.step(), LocateStep::Done));
    assert_eq!(proc.conclude_location(l).unwrap_err().message(), "boom");
    assert_eq!(proc.get_active_offset_name(), Some("kept".to_string()));
}

#[test]
fn first_working_build_is_kept() {
    let mut proc = MacProc::from_parts(1, 1, 0x1000);
    let mut l = proc.get_location(true, &Some(vec![offsets("a", 1), offsets("b", 2)]));
    assert_eq!(attempt_name(&l), "a");
    l.report_attempt(Err(chain_error("first")));
    assert_eq!(attempt_name(&l), "b");
    l.report_attempt(Ok(()));
    assert!(proc.conclude_location(l).is_ok());
    assert_eq!(proc.get_active_offset_name(), Some("b".to_string()));
    let l = proc.get_location(true, &Some(vec![offsets("a", 1)]));
    assert_eq!(attempt_name(&l), "b");
}

#[test]
fn discovered_world_pointer_is_kept_with_the_build() {
    let mut proc = MacProc::from_parts(1, 1, 0x1000);
    let mut l = proc.get_location(true, &Some(vec![offsets("a", 0x100), offsets("b", 0x200)]));
    l.report_attempt(Err(chain_error("e1")));
    l.report_attempt(Err(chain_error("e2")));
    match l.step() {
        LocateStep::Discover(o) => assert_eq!(o.name, "a"),
        _ => panic!("expected a search"),
    }
    l.report_search(None);
    match l.step() {
        LocateStep::Discover(o) => assert_eq!(o.name, "b"),
        _ => panic!("expected a search"),
    }
    l.report_search(Some(0x208));
    match l.step() {
        LocateStep::Attempt(o) => {
            assert_eq!(o.name, "b");
            assert_eq!(o.global_gworld, 0x208);
            assert_eq!(o.uworld_owninggameinstance, 1);
        },
        _ => panic!("expected an attempt"),
    }
    l.report_attempt(Ok(()));
    assert!(proc.conclude_location(l).is_ok());
    assert_eq!(proc.get_active_offset_name(), Some("b".to_string()));
}

#[test]
fn failure_summary_names_the_first_two_failures() {
    let mut l = Locator::start(
        true,
        &Some(vec![offsets("a", 1), offsets("b", 2), offsets("c", 3)]),
        &None,
    );
    l.report_attempt(Err(chain_error("x")));
    l.report_attempt(Err(NativeError::ValueReadError { message: "y".to_string() }));
    l.report_attempt(Err(chain_error("z")));
    l.report_search(Some(9));
    l.report_attempt(Err(chain_error("ignored")));
    l.report_search(None);
    l.report_search(None);
    assert!(matches!(l.step(), LocateStep::Done));
    assert_eq!(
        error_text(l.into_result()),
        "사용 가능한 버전 값을 찾지 못했습니다. macOS 오프셋 불일치 가능성이 높습니다. 대표 실패: a: x | b: y"
    );
}

#[test]
fn failure_summary_with_one_build() {
    let mut l = Locator::start(true, &Some(vec![offsets("only", 1)]), &None);
    l.report_attempt(Err(chain_error("x")));
    l.report_search(None);
    assert_eq!(
        error_text(l.into_result()),
        "사용 가능한 버전 값을 찾지 못했습니다. macOS 오프셋 불일치 가능성이 높습니다. 대표 실패: only: x"
    );
}

#[test]
fn no_builds_fail_at_once() {
    let l = Locator::start(true, &Some(Vec::new()), &None);
    assert_eq!(
        error_text(l.into_result()),
        "사용 가능한 버전 값을 찾지 못했습니다. macOS 오프셋 불일치 가능성이 높습니다. 대표 실패: "
    );
}

#[test]
fn adjusted_offsets_change_only_the_world_pointer() {
    let o = offsets("a", 0x100);
    let m = o.adjusted(0x180);
    assert_eq!(m.global_gworld, 0x180);
    assert_eq!(m.name, "a");
    assert_eq!(m.ulevel_lastworldorigin, 8);
}

#[test]
fn kept_offsets_survive_later_searches() {
    let mut proc = MacProc::from_parts(1, 1, 0x1000);
    assert_eq!(proc.get_active_offset_name(), None);
    let mut l = proc.get_location(true, &Some(vec![offsets("a", 1)]));
    l.report_attempt(Err(chain_error("no")));
    l.report_search(None);
    assert!(proc.conclude_location(l).is_err());
    assert_eq!(proc.get_active_offset_name(), None);
    let mut l = proc.get_location(true, &Some(vec![offsets("a", 1), offsets("b", 2)]));
    l.report_attempt(Err(chain_error("no")));
    l.report_attempt(Ok(()));
    assert!(proc.conclude_location(l).is_ok());
    assert_eq!(proc.get_active_offset_name(), Some("b".to_string()));
    for outcome in [Ok(()), Err(chain_error("later")), Ok(())] {
        let mut l = proc.get_location(true, &Some(vec![offsets("c", 3)]));
        assert_eq!(attempt_name(&l), "b");
        l.report_attempt(outcome);
        let _ = proc.conclude_location(l);
        assert_eq!(proc.get_active_offset_name(), Some("b".to_string()));
    }
}
