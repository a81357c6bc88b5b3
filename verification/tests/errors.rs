use wuma_tracker::errors::ConnectError;

#[test]
fn unsupported_platform_text() {
    assert_eq!(ConnectError::UnsupportedPlatform.message(), "현재 OS는 지원되지 않습니다.");
}

#[test]
fn game_not_running_text() {
    assert_eq!(ConnectError::GameNotRunning.message(), "게임이 실행 중이 아닙니다.");
}

#[test]
fn permission_denied_text() {
    let expected = format!(
        "게임 프로세스 권한 획득 실패(task_for_pid, kr=5). \
macOS 권한 거부 상태입니다.\n\
1) 앱을 종료하고, 터미널에서 sudo로 실행하세요.\n\
2) 시스템 설정 > 개인정보 보호 및 보안 > 개발자 도구에서 터미널(또는 iTerm)을 허용하세요.\n\
3) 터미널을 재시작한 뒤 다시 시도하세요.\n\
(pid={})",
        4321
    );
    assert_eq!(ConnectError::PermissionDenied { pid: 4321 }.message(), expected);
}

#[test]
fn task_for_pid_failure_text() {
    let e = ConnectError::TaskForPidFailed { pid: 77, kr: 17 };
    assert_eq!(
        e.message(),
        "게임 프로세스 권한 획득 실패(task_for_pid). 관리자 권한으로 앱을 실행하세요. (pid=77, kr=17)"
    );
    let e = ConnectError::TaskForPidFailed { pid: 0, kr: -308 };
    assert_eq!(
        e.message(),
        "게임 프로세스 권한 획득 실패(task_for_pid). 관리자 권한으로 앱을 실행하세요. (pid=0, kr=-308)"
    );
}

#[test]
fn dyld_info_failure_text() {
    assert_eq!(
        ConnectError::DyldInfoFailed { kr: 4 }.message(),
        "dyld 정보 조회 실패(task_info, kr=4)."
    );
    assert_eq!(
        ConnectError::DyldInfoFailed { kr: 0 }.message(),
        "dyld 정보 조회 실패(task_info, kr=0)."
    );
}

#[test]
fn decimal_rendering_matches_display_at_the_extremes() {
    for kr in [i32::MIN, -1, 9, 10, 99, 100, 1_000_000, i32::MAX] {
        assert_eq!(
            ConnectError::DyldInfoFailed { kr }.message(),
            format!("dyld 정보 조회 실패(task_info, kr={}).", kr)
        );
    }
}

#[test]
fn image_list_failure_texts() {
    assert_eq!(
        ConnectError::ImageInfosUnreadable.message(),
        "dyld_all_image_infos 헤더를 읽지 못했습니다."
    );
    assert_eq!(ConnectError::ImageListEmpty.message(), "dyld 이미지 목록이 비어 있습니다.");
    assert_eq!(
        ConnectError::ImageEntryUnreadable.message(),
        "dyld 이미지 엔트리를 읽지 못했습니다."
    );
}

#[test]
fn no_executable_region_text() {
    assert_eq!(
        ConnectError::NoExecutableRegion.message(),
        "실행 가능한 메모리 영역을 찾지 못했습니다."
    );
}
