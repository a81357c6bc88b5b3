//! Error values and the exact texts that describe them.

use vstd::prelude::*;
use crate::text::{dec_int, hex_upper, push_hex, push_i32};

verus! {

/// The steps of the pointer chains, named as in the messages.
#[derive(Clone, Copy, PartialEq, Eq, Structural, Debug)]
pub enum Label {
    GWorld,
    OwningGameInstance,
    LocalPlayers,
    LocalPlayer,
    PlayerController,
    Pawn,
    RootComponent,
    PersistentLevel,
}

impl Label {
    /// The label as it appears in messages.
    pub open spec fn text(self) -> Seq<char> {
        match self {
            Label::GWorld => "GWorld"@,
            Label::OwningGameInstance => "OwningGameInstance"@,
            Label::LocalPlayers => "TArray<*LocalPlayers>"@,
            Label::LocalPlayer => "LocalPlayer"@,
            Label::PlayerController => "PlayerController"@,
            Label::Pawn => "APawn"@,
            Label::RootComponent => "RootComponent"@,
            Label::PersistentLevel => "PersistentLevel"@,
        }
    }

    pub fn name(&self) -> (s: &'static str)
        ensures
            s@ == self.text(),
    {
        match self {
            Label::GWorld => "GWorld",
            Label::OwningGameInstance => "OwningGameInstance",
            Label::LocalPlayers => "TArray<*LocalPlayers>",
            Label::LocalPlayer => "LocalPlayer",
            Label::PlayerController => "PlayerController",
            Label::Pawn => "APawn",
            Label::RootComponent => "RootComponent",
            Label::PersistentLevel => "PersistentLevel",
        }
    }
}

/// The values read at the ends of the chains.
#[derive(Clone, Copy, PartialEq, Eq, Structural, Debug)]
pub enum ValueKind {
    /// The root component's world transform.
    Transform,
    /// The persistent level's world origin.
    WorldOrigin,
}

impl ValueKind {
    pub open spec fn text(self) -> Seq<char> {
        match self {
            ValueKind::Transform => "FTransform"@,
            ValueKind::WorldOrigin => "LastWorldOrigin"@,
        }
    }

    pub fn name(&self) -> (s: &'static str)
        ensures
            s@ == self.text(),
    {
        match self {
            ValueKind::Transform => "FTransform",
            ValueKind::WorldOrigin => "LastWorldOrigin",
        }
    }
}

/// Why a location could not be produced.
#[derive(Debug)]
pub enum NativeError {
    /// The game process is gone.
    ProcessTerminated,
    /// A step of a pointer chain could not be followed.
    PointerChainError { message: String },
    /// A value at the end of a chain could not be read.
    ValueReadError { message: String },
}

/// What a `NativeError` says: its variant and its text.
pub enum ErrorView {
    ProcessTerminated,
    PointerChainError(Seq<char>),
    ValueReadError(Seq<char>),
}

impl View for NativeError {
    type V = ErrorView;

    open spec fn view(&self) -> ErrorView {
        match self {
            NativeError::ProcessTerminated => ErrorView::ProcessTerminated,
            NativeError::PointerChainError { message } => ErrorView::PointerChainError(message@),
            NativeError::ValueReadError { message } => ErrorView::ValueReadError(message@),
        }
    }
}

/// Text of `NativeError::ProcessTerminated`.
pub open spec fn terminated_text() -> Seq<char> {
    "게임 프로세스가 종료되었습니다."@
}

impl ErrorView {
    /// The text the error displays.
    pub open spec fn text(self) -> Seq<char> {
        match self {
            ErrorView::ProcessTerminated => terminated_text(),
            ErrorView::PointerChainError(m) => m,
            ErrorView::ValueReadError(m) => m,
        }
    }
}

impl NativeError {

    /// The text the error displays.
    pub fn message(&self) -> (s: String)
        ensures
            s@ == self@.text(),
    {
        match self {
            NativeError::ProcessTerminated => String::from_str("게임 프로세스가 종료되었습니다."),
            NativeError::PointerChainError { message } => message.clone(),
            NativeError::ValueReadError { message } => message.clone(),
        }
    }

    /// A copy of the error.
    pub fn duplicate(&self) -> (r: NativeError)
        ensures
            r == *self,
    {
        match self {
            NativeError::ProcessTerminated => NativeError::ProcessTerminated,
            NativeError::PointerChainError { message } => NativeError::PointerChainError {
                message: message.clone(),
            },
            NativeError::ValueReadError { message } => NativeError::ValueReadError {
                message: message.clone(),
            },
        }
    }
}

/// Why attaching to the game process failed.
#[derive(Clone, Copy, PartialEq, Eq, Structural, Debug)]
pub enum ConnectError {
    /// This operating system is not supported.
    UnsupportedPlatform,
    /// No running process matches the name.
    GameNotRunning,
    /// `task_for_pid` was refused (kernel code 5).
    PermissionDenied { pid: i32 },
    /// `task_for_pid` failed otherwise, or returned no port.
    TaskForPidFailed { pid: i32, kr: i32 },
    /// The dyld information of the task could not be obtained.
    DyldInfoFailed { kr: i32 },
    /// The header of the loaded-image list could not be read.
    ImageInfosUnreadable,
    /// The loaded-image list is empty.
    ImageListEmpty,
    /// The first entry of the loaded-image list could not be read.
    ImageEntryUnreadable,
    /// No executable memory region was found.
    NoExecutableRegion,
}

/// Text of `ConnectError::PermissionDenied` before the process id.
pub open spec fn permission_denied_head() -> Seq<char> {
    "게임 프로세스 권한 획득 실패(task_for_pid, kr=5). macOS 권한 거부 상태입니다.\n1) 앱을 종료하고, 터미널에서 sudo로 실행하세요.\n2) 시스템 설정 > 개인정보 보호 및 보안 > 개발자 도구에서 터미널(또는 iTerm)을 허용하세요.\n3) 터미널을 재시작한 뒤 다시 시도하세요.\n(pid="@
}

impl ConnectError {
    /// The text the error displays.
    pub open spec fn text(self) -> Seq<char> {
        match self {
            ConnectError::UnsupportedPlatform => unsupported_text(),
            ConnectError::GameNotRunning => "게임이 실행 중이 아닙니다."@,
            ConnectError::PermissionDenied { pid } => permission_denied_head() + dec_int(pid as int)
                + ")"@,
            ConnectError::TaskForPidFailed { pid, kr } =>
                "게임 프로세스 권한 획득 실패(task_for_pid). 관리자 권한으로 앱을 실행하세요. (pid="@
                + dec_int(pid as int) + ", kr="@ + dec_int(kr as int) + ")"@,
            ConnectError::DyldInfoFailed { kr } => "dyld 정보 조회 실패(task_info, kr="@ + dec_int(
                kr as int,
            ) + ")."@,
            ConnectError::ImageInfosUnreadable => "dyld_all_image_infos 헤더를 읽지 못했습니다."@,
            ConnectError::ImageListEmpty => "dyld 이미지 목록이 비어 있습니다."@,
            ConnectError::ImageEntryUnreadable => "dyld 이미지 엔트리를 읽지 못했습니다."@,
            ConnectError::NoExecutableRegion => "실행 가능한 메모리 영역을 찾지 못했습니다."@,
        }
    }

    /// The text the error displays.
    pub fn message(&self) -> (s: String)
        ensures
            s@ == self.text(),
    {
        match self {
            ConnectError::UnsupportedPlatform => unsupported_message(),
            ConnectError::GameNotRunning => String::from_str("게임이 실행 중이 아닙니다."),
            ConnectError::PermissionDenied { pid } => {
                let mut s = String::from_str(
                    "게임 프로세스 권한 획득 실패(task_for_pid, kr=5). macOS 권한 거부 상태입니다.\n1) 앱을 종료하고, 터미널에서 sudo로 실행하세요.\n2) 시스템 설정 > 개인정보 보호 및 보안 > 개발자 도구에서 터미널(또는 iTerm)을 허용하세요.\n3) 터미널을 재시작한 뒤 다시 시도하세요.\n(pid=",
                );
                push_i32(&mut s, *pid);
                s.append(")");
                s
            },
            ConnectError::TaskForPidFailed { pid, kr } => {
                let mut s = String::from_str(
                    "게임 프로세스 권한 획득 실패(task_for_pid). 관리자 권한으로 앱을 실행하세요. (pid=",
                );
                push_i32(&mut s, *pid);
                s.append(", kr=");
                push_i32(&mut s, *kr);
                s.append(")");
                s
            },
            ConnectError::DyldInfoFailed { kr } => {
                let mut s = String::from_str("dyld 정보 조회 실패(task_info, kr=");
                push_i32(&mut s, *kr);
                s.append(").");
                s
            },
            ConnectError::ImageInfosUnreadable => String::from_str(
                "dyld_all_image_infos 헤더를 읽지 못했습니다.",
            ),
            ConnectError::ImageListEmpty => String::from_str("dyld 이미지 목록이 비어 있습니다."),
            ConnectError::ImageEntryUnreadable => String::from_str(
                "dyld 이미지 엔트리를 읽지 못했습니다.",
            ),
            ConnectError::NoExecutableRegion => String::from_str(
                "실행 가능한 메모리 영역을 찾지 못했습니다.",
            ),
        }
    }
}

/// `'<label>' 위치 (<address>)의 주소 값을 읽지 못했습니다.`
pub open spec fn unreadable_pointer_text(label: Label, address: u64) -> Seq<char> {
    "'"@ + label.text() + "' 위치 ("@ + hex_upper(address as nat) + ")의 주소 값을 읽지 못했습니다."@
}

/// `'<label>' 포인터가 유효하지 않습니다. raw=<raw>, normalized=<normalized>`
pub open spec fn invalid_pointer_text(label: Label, raw: u64, normalized: u64) -> Seq<char> {
    "'"@ + label.text() + "' 포인터가 유효하지 않습니다. raw="@ + hex_upper(raw as nat)
        + ", normalized="@ + hex_upper(normalized as nat)
}

/// `<value> 위치 (<address>)의 값을 읽지 못했습니다.`
pub open spec fn unreadable_value_text(kind: ValueKind, address: u64) -> Seq<char> {
    kind.text() + " 위치 ("@ + hex_upper(address as nat) + ")의 값을 읽지 못했습니다."@
}

/// Text of the error given while the offsets are not loaded yet.
pub open spec fn offsets_loading_text() -> Seq<char> {
    "오프셋 데이터를 불러오는 중입니다..."@
}

/// Text of the error of a platform without process access.
pub open spec fn unsupported_text() -> Seq<char> {
    "현재 OS는 지원되지 않습니다."@
}

pub fn unreadable_pointer_message(label: Label, address: u64) -> (s: String)
    ensures
        s@ == unreadable_pointer_text(label, address),
{
    let mut s = String::from_str("'");
    s.append(label.name());
    s.append("' 위치 (");
    push_hex(&mut s, address);
    s.append(")의 주소 값을 읽지 못했습니다.");
    s
}

pub fn invalid_pointer_message(label: Label, raw: u64, normalized: u64) -> (s: String)
    ensures
        s@ == invalid_pointer_text(label, raw, normalized),
{
    let mut s = String::from_str("'");
    s.append(label.name());
    s.append("' 포인터가 유효하지 않습니다. raw=");
    push_hex(&mut s, raw);
    s.append(", normalized=");
    push_hex(&mut s, normalized);
    s
}

pub fn unreadable_value_message(kind: ValueKind, address: u64) -> (s: String)
    ensures
        s@ == unreadable_value_text(kind, address),
{
    let mut s = String::from_str(kind.name());
    s.append(" 위치 (");
    push_hex(&mut s, address);
    s.append(")의 값을 읽지 못했습니다.");
    s
}

pub fn offsets_loading_message() -> (s: String)
    ensures
        s@ == offsets_loading_text(),
{
    String::from_str("오프셋 데이터를 불러오는 중입니다...")
}

pub fn unsupported_message() -> (s: String)
    ensures
        s@ == unsupported_text(),
{
    String::from_str("현재 OS는 지원되지 않습니다.")
}

} // verus!
