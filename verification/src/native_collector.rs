//! The collection loop: what to send, when to pause and when to stop, after
//! each attempt to locate the player.

use vstd::prelude::*;
use crate::errors::{
    ConnectError, ErrorView, Label, NativeError, invalid_pointer_text, unreadable_pointer_text,
    unsupported_text,
};
use crate::mac_proc::normalized_pointer;
use crate::platform_proc::PlatformProc;
use crate::text::{contains, hex_upper, occurs_at, str_contains};

verus! {

/// Pause after a located player, in milliseconds.
pub const LOCATED_DELAY_MS: u64 = 80;

/// Pause after a transient world-pointer failure, in milliseconds.
pub const TRANSIENT_DELAY_MS: u64 = 40;

/// Pause after any other failure, in milliseconds.
pub const DEFAULT_DELAY_MS: u64 = 120;

/// A failure that only means the world is loading or changing scene: the
/// world pointer is null, or cannot be read.
pub open spec fn transient_gworld(message: Seq<char>) -> bool {
    contains(message, "'GWorld' 포인터가 유효하지 않습니다. raw=0"@)
        || contains(message, "'GWorld' 위치"@)
}

/// A prefix of a text is found in it.
proof fn lemma_prefix_contained(s: Seq<char>, p: Seq<char>)
    requires
        p.len() <= s.len(),
        s.subrange(0, p.len() as int) == p,
    ensures
        contains(s, p),
{
    assert(occurs_at(s, p, 0));
}

/// When the world pointer cannot be read, the loop retries quietly.
pub proof fn lemma_unreadable_gworld_is_transient(address: u64)
    ensures
        transient_gworld(unreadable_pointer_text(Label::GWorld, address)),
{
    reveal_strlit("'");
    reveal_strlit("GWorld");
    reveal_strlit("' 위치 (");
    reveal_strlit("'GWorld' 위치");
    let s = unreadable_pointer_text(Label::GWorld, address);
    let p = "'GWorld' 위치"@;
    assert(s.subrange(0, p.len() as int) =~= p);
    lemma_prefix_contained(s, p);
}

/// When the world pointer is null, the loop retries quietly.
pub proof fn lemma_null_gworld_is_transient()
    ensures
        transient_gworld(invalid_pointer_text(Label::GWorld, 0, normalized_pointer(0))),
{
    reveal_strlit("'");
    reveal_strlit("GWorld");
    reveal_strlit("' 포인터가 유효하지 않습니다. raw=");
    reveal_strlit("'GWorld' 포인터가 유효하지 않습니다. raw=0");
    let s = invalid_pointer_text(Label::GWorld, 0, normalized_pointer(0));
    let p = "'GWorld' 포인터가 유효하지 않습니다. raw=0"@;
    assert(hex_upper(0) =~= seq!['0']);
    assert(s.subrange(0, p.len() as int) =~= p);
    lemma_prefix_contained(s, p);
}

/// A failure is taken for a loading screen wherever in its message the
/// null-world-pointer or unreadable-world-pointer text stands, also inside a
/// longer message such as the summary of failed builds.
pub proof fn lemma_gworld_failure_anywhere_is_transient(
    before: Seq<char>,
    after: Seq<char>,
    address: u64,
)
    ensures
        transient_gworld(before + invalid_pointer_text(Label::GWorld, 0, 0) + after),
        transient_gworld(before + unreadable_pointer_text(Label::GWorld, address) + after),
{
    reveal_strlit("'");
    reveal_strlit("GWorld");
    reveal_strlit("' 포인터가 유효하지 않습니다. raw=");
    reveal_strlit("'GWorld' 포인터가 유효하지 않습니다. raw=0");
    reveal_strlit("' 위치 (");
    reveal_strlit("'GWorld' 위치");
    let t = invalid_pointer_text(Label::GWorld, 0, 0);
    let p = "'GWorld' 포인터가 유효하지 않습니다. raw=0"@;
    assert(hex_upper(0) =~= seq!['0']);
    assert(t.subrange(0, p.len() as int) =~= p);
    let m = before + t + after;
    assert(m.subrange(before.len() as int, (before.len() + p.len()) as int) =~= p);
    assert(occurs_at(m, p, before.len() as int));
    let u = unreadable_pointer_text(Label::GWorld, address);
    let q = "'GWorld' 위치"@;
    assert(u.subrange(0, q.len() as int) =~= q);
    let n = before + u + after;
    assert(n.subrange(before.len() as int, (before.len() + q.len()) as int) =~= q);
    assert(occurs_at(n, q, before.len() as int));
}

/// Whether `message` describes a transient world-pointer failure.
pub fn is_transient_gworld(message: &str) -> (r: bool)
    ensures
        r == transient_gworld(message@),
{
    str_contains(message, "'GWorld' 포인터가 유효하지 않습니다. raw=0")
        || str_contains(message, "'GWorld' 위치")
}

/// A collector over the platform's process access.
pub struct NativeCollector {
    pub proc: PlatformProc,
}

impl NativeCollector {
    /// Attaches to the process called `proc_name`.
    pub fn new(proc_name: &str) -> (r: Result<NativeCollector, ConnectError>)
        ensures
            r matches Err(e) && e == ConnectError::UnsupportedPlatform && e.text() == unsupported_text(),
    {
        let proc = PlatformProc::new(proc_name)?;
        Ok(NativeCollector { proc })
    }
}

/// What one pass of the loop found.
pub enum Observation {
    /// The collector has been taken away.
    NoCollector,
    /// The player was located; the name of the offsets in use, if any.
    Located { active_offset: Option<String> },
    /// Locating failed.
    Failed(NativeError),
}

/// What a pass found, as plain values.
pub enum ObservationView {
    NoCollector,
    Located(Option<Seq<char>>),
    Failed(ErrorView),
}

impl View for Observation {
    type V = ObservationView;

    open spec fn view(&self) -> ObservationView {
        match self {
            Observation::NoCollector => ObservationView::NoCollector,
            Observation::Located { active_offset } => ObservationView::Located(
                match active_offset {
                    Some(name) => Some(name@),
                    None => None,
                },
            ),
            Observation::Failed(e) => ObservationView::Failed(e@),
        }
    }
}

/// The pass located the player with known offsets in use.
pub open spec fn located_with_offset(obs: ObservationView) -> bool {
    obs matches ObservationView::Located(Some(_))
}

/// The pass announces the offsets in use: it located the player with known
/// offsets, and none were announced before.
pub open spec fn announces(reported: bool, obs: ObservationView) -> bool {
    !reported && located_with_offset(obs)
}

/// Whether the offsets have been announced after a pass.
pub open spec fn reported_after(reported: bool, obs: ObservationView) -> bool {
    reported || announces(reported, obs)
}

/// Whether the offsets have been announced after the passes `passes`, from
/// the state `start`.
pub open spec fn reported_through(start: bool, passes: Seq<ObservationView>) -> bool
    decreases passes.len(),
{
    if passes.len() == 0 {
        start
    } else {
        reported_after(reported_through(start, passes.drop_last()), passes.last())
    }
}

/// A message for the supervisor.
pub enum Outbound {
    /// The offsets in use were found.
    OffsetFound(String),
    /// The location just read.
    Data,
    /// The game process is gone.
    Terminated,
    /// A failure worth showing.
    TemporalError(String),
}

pub enum OutboundView {
    OffsetFound(Seq<char>),
    Data,
    Terminated,
    TemporalError(Seq<char>),
}

impl View for Outbound {
    type V = OutboundView;

    open spec fn view(&self) -> OutboundView {
        match self {
            Outbound::OffsetFound(s) => OutboundView::OffsetFound(s@),
            Outbound::Data => OutboundView::Data,
            Outbound::Terminated => OutboundView::Terminated,
            Outbound::TemporalError(s) => OutboundView::TemporalError(s@),
        }
    }
}

/// Some message of `sends` announces offsets.
pub open spec fn sends_offset(sends: Seq<OutboundView>) -> bool {
    exists|i: int| 0 <= i < sends.len() && #[trigger] sends[i] is OffsetFound
}

/// What follows the sends.
#[derive(Clone, Copy, PartialEq, Eq, Structural, Debug)]
pub enum After {
    /// Pause this many milliseconds (or until the stop signal), then loop.
    Sleep(u64),
    /// Leave the loop.
    Exit,
}

/// What one pass of the loop does.
pub struct Plan {
    /// Messages to send, in order.
    pub sends: Vec<Outbound>,
    /// Leave the loop as soon as a message cannot be delivered.
    pub stop_if_undelivered: bool,
    pub after: After,
    /// Whether the offsets in use have been announced, once the sends are delivered.
    pub offset_reported: bool,
}

/// The texts of the messages of a plan.
pub open spec fn views(sends: Seq<Outbound>) -> Seq<OutboundView> {
    sends.map_values(|o: Outbound| o@)
}

/// The pass of the loop after `observation`, when the offsets in use were
/// already announced (`offset_reported`) or not.
pub fn collection_step(offset_reported: bool, observation: Observation) -> (r: Plan)
    ensures
        r.offset_reported == reported_after(offset_reported, observation@),
        sends_offset(views(r.sends@)) == announces(offset_reported, observation@),
        match observation {
            Observation::NoCollector => {
                &&& r.sends@.len() == 0
                &&& r.after == After::Exit
                &&& r.offset_reported == offset_reported
            },
            Observation::Located { active_offset } => {
                &&& r.stop_if_undelivered
                &&& r.after == After::Sleep(LOCATED_DELAY_MS)
                &&& if !offset_reported && active_offset is Some {
                    &&& views(r.sends@) == seq![
                        OutboundView::OffsetFound(active_offset->0@),
                        OutboundView::Data,
                    ]
                    &&& r.offset_reported
                } else {
                    &&& views(r.sends@) == seq![OutboundView::Data]
                    &&& r.offset_reported == offset_reported
                }
            },
            Observation::Failed(e) => {
                &&& r.offset_reported == offset_reported
                &&& if e@ == ErrorView::ProcessTerminated {
                    &&& views(r.sends@) == seq![OutboundView::Terminated]
                    &&& !r.stop_if_undelivered
                    &&& r.after == After::Exit
                } else if transient_gworld(e@.text()) {
                    &&& r.sends@.len() == 0
                    &&& r.after == After::Sleep(TRANSIENT_DELAY_MS)
                } else {
                    &&& views(r.sends@) == seq![OutboundView::TemporalError(e@.text())]
                    &&& r.stop_if_undelivered
                    &&& r.after == After::Sleep(DEFAULT_DELAY_MS)
                }
            },
        },
{
    let ghost obs = observation@;
    let plan = match observation {
        Observation::NoCollector => Plan {
            sends: Vec::new(),
            stop_if_undelivered: true,
            after: After::Exit,
            offset_reported,
        },
        Observation::Located { active_offset } => {
            let mut sends: Vec<Outbound> = Vec::new();
            let mut reported = offset_reported;
            if !offset_reported {
                if let Some(name) = active_offset {
                    sends.push(Outbound::OffsetFound(name));
                    reported = true;
                }
            }
            sends.push(Outbound::Data);
            proof {
                assert(views(sends@) =~= sends@.map_values(|o: Outbound| o@));
            }
            Plan {
                sends,
                stop_if_undelivered: true,
                after: After::Sleep(LOCATED_DELAY_MS),
                offset_reported: reported,
            }
        },
        Observation::Failed(NativeError::ProcessTerminated) => {
            let mut sends: Vec<Outbound> = Vec::new();
            sends.push(Outbound::Terminated);
            Plan { sends, stop_if_undelivered: false, after: After::Exit, offset_reported }
        },
        Observation::Failed(e) => {
            let message = e.message();
            if is_transient_gworld(message.as_str()) {
                Plan {
                    sends: Vec::new(),
                    stop_if_undelivered: true,
                    after: After::Sleep(TRANSIENT_DELAY_MS),
                    offset_reported,
                }
            } else {
                let mut sends: Vec<Outbound> = Vec::new();
                sends.push(Outbound::TemporalError(message));
                Plan {
                    sends,
                    stop_if_undelivered: true,
                    after: After::Sleep(DEFAULT_DELAY_MS),
                    offset_reported,
                }
            }
        },
    };
    proof {
        let v = views(plan.sends@);
        if v.len() == 0 {
            assert(!sends_offset(v));
        } else if announces(offset_reported, obs) {
            assert(v[0] is OffsetFound);
        } else {
            assert forall|i: int| 0 <= i < v.len() implies !(#[trigger] v[i] is OffsetFound) by {
                assert(v.len() == 1);
            }
        }
    }
    plan
}

/// After the first `i` passes of a fresh loop, the offsets have been announced
/// exactly when one of those passes located the player with known offsets.
proof fn lemma_reported_iff_seen(passes: Seq<ObservationView>, i: int)
    requires
        0 <= i <= passes.len(),
    ensures
        reported_through(false, passes.take(i)) <==> exists|k: int|
            0 <= k < i && located_with_offset(#[trigger] passes[k]),
    decreases i,
{
    if i > 0 {
        lemma_reported_iff_seen(passes, i - 1);
        assert(passes.take(i).drop_last() =~= passes.take(i - 1));
        assert(passes.take(i).last() == passes[i - 1]);
        if exists|k: int| 0 <= k < i && located_with_offset(#[trigger] passes[k]) {
            let k = choose|k: int| 0 <= k < i && located_with_offset(#[trigger] passes[k]);
            if k < i - 1 {
                assert(reported_through(false, passes.take(i - 1)));
            }
        }
    }
}

/// Over the passes of one run of the loop, the offsets in use are announced
/// at most once: a pass announces them exactly when it is the first to locate
/// the player with known offsets, so no two passes announce them.
pub proof fn lemma_offset_announced_once(passes: Seq<ObservationView>)
    ensures
        forall|i: int|
            0 <= i < passes.len() ==> (#[trigger] announces(reported_through(false, passes.take(i)), passes[i])
                <==> (located_with_offset(passes[i]) && forall|k: int|
                0 <= k < i ==> !located_with_offset(#[trigger] passes[k]))),
        forall|i: int, j: int|
            0 <= i < j < passes.len() && #[trigger] announces(reported_through(false, passes.take(i)), passes[i])
                ==> !#[trigger] announces(reported_through(false, passes.take(j)), passes[j]),
{
    assert forall|i: int| 0 <= i < passes.len() implies (#[trigger] announces(
        reported_through(false, passes.take(i)),
        passes[i],
    ) <==> (located_with_offset(passes[i]) && forall|k: int|
        0 <= k < i ==> !located_with_offset(#[trigger] passes[k]))) by {
        lemma_reported_iff_seen(passes, i);
    }
    assert forall|i: int, j: int|
        0 <= i < j < passes.len() && #[trigger] announces(reported_through(false, passes.take(i)), passes[i])
            implies !#[trigger] announces(reported_through(false, passes.take(j)), passes[j]) by {
        lemma_reported_iff_seen(passes, i);
        lemma_reported_iff_seen(passes, j);
        assert(located_with_offset(passes[i]));
    }
}

} // verus!
