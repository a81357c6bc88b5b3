//! Choosing the offsets that locate the player.
//!
//! The offsets that worked last time are tried alone. Otherwise every listed
//! build is tried in turn; when none works, a world pointer is searched for
//! each build and the build is tried again with it. The first success is kept.

use vstd::prelude::*;
use crate::errors::{ErrorView, NativeError, offsets_loading_message, offsets_loading_text};
use crate::offsets::WuwaOffset;

verus! {

/// `<name>: <error text>`, one entry of the failure list.
pub open spec fn failure_text(name: Seq<char>, e: ErrorView) -> Seq<char> {
    name + ": "@ + e.text()
}

/// The first two failures, joined by ` | `.
pub open spec fn first_two_joined(f: Seq<Seq<char>>) -> Seq<char> {
    if f.len() == 0 {
        Seq::empty()
    } else if f.len() == 1 {
        f[0]
    } else {
        f[0] + " | "@ + f[1]
    }
}

/// Text of the error given when no build's offsets work.
pub open spec fn summary_text(f: Seq<Seq<char>>) -> Seq<char> {
    "사용 가능한 버전 값을 찾지 못했습니다. macOS 오프셋 불일치 가능성이 높습니다. 대표 실패: "@
        + first_two_joined(f)
}

/// The texts of a list of strings.
pub open spec fn texts(v: Seq<String>) -> Seq<Seq<char>> {
    v.map_values(|s: String| s@)
}

/// Where the search stands.
pub enum LocatePhase {
    /// Trying again the offsets that worked before.
    Cached(WuwaOffset),
    /// Trying listed build `i`.
    Variant(usize),
    /// Searching a world pointer for listed build `j`.
    Search(usize),
    /// Trying listed build `j` with the world pointer found for it.
    Adjusted(usize, WuwaOffset),
    /// Done: the offsets to keep (none when the kept ones still work), or the error.
    Finished(Result<Option<WuwaOffset>, NativeError>),
}

/// The phase with its error taken by its view.
pub enum Stage {
    Cached(WuwaOffset),
    Variant(int),
    Search(int),
    Adjusted(int, WuwaOffset),
    Located(Option<WuwaOffset>),
    Failed(ErrorView),
}

impl View for LocatePhase {
    type V = Stage;

    open spec fn view(&self) -> Stage {
        match self {
            LocatePhase::Cached(o) => Stage::Cached(*o),
            LocatePhase::Variant(i) => Stage::Variant(*i as int),
            LocatePhase::Search(j) => Stage::Search(*j as int),
            LocatePhase::Adjusted(j, o) => Stage::Adjusted(*j as int, *o),
            LocatePhase::Finished(Ok(o)) => Stage::Located(*o),
            LocatePhase::Finished(Err(e)) => Stage::Failed(e@),
        }
    }
}

/// Moves past the end of a list: from the last build to the search, and from
/// the last search to the final error.
pub open spec fn settle(s: Stage, n: int, failures: Seq<Seq<char>>) -> Stage {
    match s {
        Stage::Variant(i) => if i < n {
            s
        } else if n > 0 {
            Stage::Search(0)
        } else {
            Stage::Failed(ErrorView::PointerChainError(summary_text(failures)))
        },
        Stage::Search(j) => if j < n {
            s
        } else {
            Stage::Failed(ErrorView::PointerChainError(summary_text(failures)))
        },
        _ => s,
    }
}

/// The stages a search can be in, given the offsets kept when it started: with
/// kept offsets it only retries them, and so never settles on new ones; without,
/// it never succeeds without offsets to keep.
pub open spec fn reachable_from(kept: Option<WuwaOffset>, s: Stage) -> bool {
    match kept {
        Some(_) => s is Cached || s is Failed || s == Stage::Located(None),
        None => !(s is Cached) && s != Stage::Located(None),
    }
}

/// The offsets kept after a search that ended in `s`, when `kept` were kept before.
pub open spec fn kept_after(kept: Option<WuwaOffset>, s: Stage) -> Option<WuwaOffset> {
    match s {
        Stage::Located(Some(o)) => Some(o),
        _ => kept,
    }
}

/// What the search needs next.
pub enum LocateStep {
    /// Read the location with these offsets.
    Attempt(WuwaOffset),
    /// Search a world pointer for these offsets.
    Discover(WuwaOffset),
    /// The search is over.
    Done,
}

/// The state of a search.
pub struct Locator {
    /// The listed builds.
    pub variants: Vec<WuwaOffset>,
    /// `<name>: <error>` for each listed build that failed its first try.
    pub failures: Vec<String>,
    pub phase: LocatePhase,
}

fn summary_message(failures: &Vec<String>) -> (s: String)
    ensures
        s@ == summary_text(texts(failures@)),
{
    let mut s = String::from_str(
        "사용 가능한 버전 값을 찾지 못했습니다. macOS 오프셋 불일치 가능성이 높습니다. 대표 실패: ",
    );
    let ghost prefix = s@;
    if failures.len() >= 1 {
        s.append(failures[0].as_str());
    }
    if failures.len() >= 2 {
        s.append(" | ");
        s.append(failures[1].as_str());
    }
    proof {
        let f = texts(failures@);
        if f.len() >= 2 {
            assert(s@ =~= prefix + (f[0] + " | "@ + f[1]));
        }
    }
    s
}

impl Locator {
    pub open spec fn stage(&self) -> Stage {
        self.phase@
    }

    pub open spec fn wf(&self) -> bool {
        match self.phase@ {
            Stage::Variant(i) => 0 <= i < self.variants.len(),
            Stage::Search(j) => 0 <= j < self.variants.len(),
            Stage::Adjusted(j, _) => 0 <= j < self.variants.len(),
            _ => true,
        }
    }

    /// An upper bound on the reports still to come: each report lowers it, so
    /// every search ends (after at most `1 + 3 * variants.len()` reports).
    pub open spec fn work_left(&self) -> int {
        let n: int = self.variants.len() as int;
        match self.phase@ {
            Stage::Cached(_) => 1,
            Stage::Variant(i) => (n - i) + 2 * n,
            Stage::Search(j) => 2 * (n - j),
            Stage::Adjusted(j, _) => 2 * (n - j) - 1,
            _ => 0,
        }
    }

    pub open spec fn step_spec(&self) -> LocateStep {
        match self.phase@ {
            Stage::Cached(o) => LocateStep::Attempt(o),
            Stage::Variant(i) => LocateStep::Attempt(self.variants@[i]),
            Stage::Adjusted(_, o) => LocateStep::Attempt(o),
            Stage::Search(j) => LocateStep::Discover(self.variants@[j]),
            _ => LocateStep::Done,
        }
    }

    /// A search that first settles `phase` past the ends of the lists.
    fn settled(variants: Vec<WuwaOffset>, failures: Vec<String>, phase: LocatePhase) -> (r: Locator)
        requires
            match phase@ {
                Stage::Variant(i) => 0 <= i,
                Stage::Search(j) => 0 <= j,
                Stage::Adjusted(j, _) => 0 <= j < variants.len(),
                _ => true,
            },
        ensures
            r.wf(),
            r.variants@ == variants@,
            r.failures@ == failures@,
            r.phase@ == settle(phase@, variants.len() as int, texts(failures@)),
    {
        let n: usize = variants.len();
        let phase = match phase {
            LocatePhase::Variant(i) => {
                if i < n {
                    LocatePhase::Variant(i)
                } else if n > 0 {
                    LocatePhase::Search(0)
                } else {
                    LocatePhase::Finished(
                        Err(NativeError::PointerChainError { message: summary_message(&failures) }),
                    )
                }
            },
            LocatePhase::Search(j) => {
                if j < n {
                    LocatePhase::Search(j)
                } else {
                    LocatePhase::Finished(
                        Err(NativeError::PointerChainError { message: summary_message(&failures) }),
                    )
                }
            },
            other => other,
        };
        Locator { variants, failures, phase }
    }

    /// The search for a process that is `alive`, whose kept offsets are `cached`,
    /// among the builds `available_offsets` (`None` while they are being loaded).
    pub fn start(alive: bool, available_offsets: &Option<Vec<WuwaOffset>>, cached: &Option<WuwaOffset>) -> (r: Locator)
        ensures
            r.wf(),
            r.failures@.len() == 0,
            reachable_from(*cached, r.stage()),
            !alive ==> r.stage() == Stage::Failed(ErrorView::ProcessTerminated),
            alive && available_offsets is None ==> r.stage() == Stage::Failed(
                ErrorView::PointerChainError(offsets_loading_text()),
            ),
            alive && available_offsets is Some && cached is Some ==> r.stage() == Stage::Cached(
                cached->0,
            ),
            alive && available_offsets is Some && cached is None ==> {
                &&& r.variants@ == available_offsets->0@
                &&& r.failures@.len() == 0
                &&& r.stage() == settle(Stage::Variant(0), r.variants.len() as int, Seq::empty())
            },
    {
        if !alive {
            return Locator {
                variants: Vec::new(),
                failures: Vec::new(),
                phase: LocatePhase::Finished(Err(NativeError::ProcessTerminated)),
            };
        }
        let variants = match available_offsets {
            None => {
                return Locator {
                    variants: Vec::new(),
                    failures: Vec::new(),
                    phase: LocatePhase::Finished(
                        Err(NativeError::PointerChainError { message: offsets_loading_message() }),
                    ),
                };
            },
            Some(v) => v,
        };
        if let Some(o) = cached {
            return Locator {
                variants: Vec::new(),
                failures: Vec::new(),
                phase: LocatePhase::Cached(o.duplicate()),
            };
        }
        let mut copies: Vec<WuwaOffset> = Vec::new();
        let mut i: usize = 0;
        while i < variants.len()
            invariant
                i <= variants.len(),
                copies@ == variants@.take(i as int),
            decreases variants.len() - i,
        {
            copies.push(variants[i].duplicate());
            proof {
                assert(variants@.take(i + 1) =~= variants@.take(i as int).push(variants@[i as int]));
            }
            i = i + 1;
        }
        proof {
            assert(variants@.take(variants.len() as int) =~= variants@);
            assert(texts(Seq::<String>::empty()) =~= Seq::<Seq<char>>::empty());
        }
        Self::settled(copies, Vec::new(), LocatePhase::Variant(0))
    }

    /// What the search needs next.
    pub fn step(&self) -> (r: LocateStep)
        requires
            self.wf(),
        ensures
            r == self.step_spec(),
    {
        match &self.phase {
            LocatePhase::Cached(o) => LocateStep::Attempt(o.duplicate()),
            LocatePhase::Variant(i) => LocateStep::Attempt(self.variants[*i].duplicate()),
            LocatePhase::Adjusted(_, o) => LocateStep::Attempt(o.duplicate()),
            LocatePhase::Search(j) => LocateStep::Discover(self.variants[*j].duplicate()),
            LocatePhase::Finished(_) => LocateStep::Done,
        }
    }

    /// Hands over how the read with the offsets of the last `Attempt` went.
    pub fn report_attempt(&mut self, result: Result<(), NativeError>)
        requires
            old(self).wf(),
            old(self).step_spec() is Attempt,
        ensures
            final(self).wf(),
            final(self).variants@ == old(self).variants@,
            0 <= final(self).work_left() < old(self).work_left(),
            forall|k: Option<WuwaOffset>|
                reachable_from(k, old(self).stage()) ==> #[trigger] reachable_from(k, final(self).stage()),
            match old(self).stage() {
                Stage::Cached(_) => {
                    &&& final(self).failures@ == old(self).failures@
                    &&& final(self).stage() == match result {
                        Ok(_) => Stage::Located(None),
                        Err(e) => Stage::Failed(e@),
                    }
                },
                Stage::Variant(i) => match result {
                    Ok(_) => {
                        &&& final(self).failures@ == old(self).failures@
                        &&& final(self).stage() == Stage::Located(Some(old(self).variants@[i]))
                    },
                    Err(e) => {
                        &&& texts(final(self).failures@) == texts(old(self).failures@).push(
                            failure_text(old(self).variants@[i].name@, e@),
                        )
                        &&& final(self).stage() == settle(
                            Stage::Variant(i + 1),
                            old(self).variants.len() as int,
                            texts(final(self).failures@),
                        )
                    },
                },
                Stage::Adjusted(j, o) => {
                    &&& final(self).failures@ == old(self).failures@
                    &&& final(self).stage() == match result {
                        Ok(_) => Stage::Located(Some(o)),
                        Err(_) => settle(
                            Stage::Search(j + 1),
                            old(self).variants.len() as int,
                            texts(old(self).failures@),
                        ),
                    }
                },
                _ => false,
            },
    {
        let mut phase = LocatePhase::Variant(0);
        std::mem::swap(&mut phase, &mut self.phase);
        let mut variants: Vec<WuwaOffset> = Vec::new();
        std::mem::swap(&mut variants, &mut self.variants);
        let mut failures: Vec<String> = Vec::new();
        std::mem::swap(&mut failures, &mut self.failures);
        match phase {
            LocatePhase::Cached(_) => {
                let verdict = match result {
                    Ok(()) => Ok(None),
                    Err(e) => Err(e),
                };
                *self = Locator { variants, failures, phase: LocatePhase::Finished(verdict) };
            },
            LocatePhase::Variant(i) => {
                match result {
                    Ok(()) => {
                        let chosen = variants[i].duplicate();
                        *self = Locator {
                            variants,
                            failures,
                            phase: LocatePhase::Finished(Ok(Some(chosen))),
                        };
                    },
                    Err(e) => {
                        let mut entry = variants[i].name.clone();
                        entry.append(": ");
                        let text = e.message();
                        entry.append(text.as_str());
                        let ghost before = failures@;
                        failures.push(entry);
                        proof {
                            assert(texts(failures@) =~= texts(before).push(
                                failure_text(variants@[i as int].name@, e@),
                            ));
                        }
                        *self = Self::settled(variants, failures, LocatePhase::Variant(i + 1));
                    },
                }
            },
            LocatePhase::Adjusted(j, o) => {
                match result {
                    Ok(()) => {
                        *self = Locator {
                            variants,
                            failures,
                            phase: LocatePhase::Finished(Ok(Some(o))),
                        };
                    },
                    Err(_) => {
                        *self = Self::settled(variants, failures, LocatePhase::Search(j + 1));
                    },
                }
            },
            _ => {
                proof {
                    assert(false);
                }
            },
        }
    }

    /// Hands over what the world-pointer search of the last `Discover` found.
    pub fn report_search(&mut self, found: Option<u64>)
        requires
            old(self).wf(),
            old(self).step_spec() is Discover,
        ensures
            final(self).wf(),
            final(self).variants@ == old(self).variants@,
            final(self).failures@ == old(self).failures@,
            0 <= final(self).work_left() < old(self).work_left(),
            forall|k: Option<WuwaOffset>|
                reachable_from(k, old(self).stage()) ==> #[trigger] reachable_from(k, final(self).stage()),
            match old(self).stage() {
                Stage::Search(j) => final(self).stage() == match found {
                    Some(g) => Stage::Adjusted(j, old(self).variants@[j].with_gworld(g)),
                    None => settle(
                        Stage::Search(j + 1),
                        old(self).variants.len() as int,
                        texts(old(self).failures@),
                    ),
                },
                _ => false,
            },
    {
        let mut phase = LocatePhase::Variant(0);
        std::mem::swap(&mut phase, &mut self.phase);
        let mut variants: Vec<WuwaOffset> = Vec::new();
        std::mem::swap(&mut variants, &mut self.variants);
        let mut failures: Vec<String> = Vec::new();
        std::mem::swap(&mut failures, &mut self.failures);
        match phase {
            LocatePhase::Search(j) => {
                match found {
                    Some(g) => {
                        let adjusted = variants[j].adjusted(g);
                        *self = Locator { variants, failures, phase: LocatePhase::Adjusted(j, adjusted) };
                    },
                    None => {
                        *self = Self::settled(variants, failures, LocatePhase::Search(j + 1));
                    },
                }
            },
            _ => {
                proof {
                    assert(false);
                }
            },
        }
    }

    /// The outcome of a finished search.
    pub fn into_result(self) -> (r: Result<Option<WuwaOffset>, NativeError>)
        requires
            self.phase is Finished,
        ensures
            match self.stage() {
                Stage::Located(o) => r == Ok::<Option<WuwaOffset>, NativeError>(o),
                Stage::Failed(e) => r matches Err(x) && x@ == e,
                _ => false,
            },
    {
        match self.phase {
            LocatePhase::Finished(r) => r,
            _ => {
                proof {
                    assert(false);
                }
                Ok(None)
            },
        }
    }
}

/// The offsets kept after searches that ended in `ends`, in order, starting
/// from `start`.
pub open spec fn kept_through(start: Option<WuwaOffset>, ends: Seq<Stage>) -> Option<WuwaOffset>
    decreases ends.len(),
{
    if ends.len() == 0 {
        start
    } else {
        kept_after(kept_through(start, ends.drop_last()), ends.last())
    }
}

/// A search that settled on new offsets.
pub open spec fn found_new(s: Stage) -> bool {
    s matches Stage::Located(Some(_))
}

/// Each search of `ends` ended in a stage it can reach from the offsets kept
/// when it started.
pub open spec fn searches_in_turn(start: Option<WuwaOffset>, ends: Seq<Stage>) -> bool {
    forall|i: int|
        0 <= i < ends.len() ==> reachable_from(kept_through(start, ends.take(i)), #[trigger] ends[i])
}

proof fn lemma_kept_step(start: Option<WuwaOffset>, ends: Seq<Stage>, i: int)
    requires
        0 <= i < ends.len(),
    ensures
        kept_through(start, ends.take(i + 1)) == kept_after(kept_through(start, ends.take(i)), ends[i]),
{
    assert(ends.take(i + 1).drop_last() =~= ends.take(i));
}

proof fn lemma_kept_stays(start: Option<WuwaOffset>, ends: Seq<Stage>, i: int, j: int)
    requires
        searches_in_turn(start, ends),
        0 <= i <= j <= ends.len(),
        kept_through(start, ends.take(i)) is Some,
    ensures
        kept_through(start, ends.take(j)) == kept_through(start, ends.take(i)),
    decreases j - i,
{
    if j > i {
        lemma_kept_stays(start, ends, i, j - 1);
        lemma_kept_step(start, ends, j - 1);
        assert(reachable_from(kept_through(start, ends.take(j - 1)), ends[j - 1]));
    }
}

proof fn lemma_kept_none(start: Option<WuwaOffset>, ends: Seq<Stage>, j: int)
    requires
        0 <= j <= ends.len(),
    ensures
        kept_through(start, ends.take(j)) is None <==> (start is None && forall|k: int|
            0 <= k < j ==> !found_new(#[trigger] ends[k])),
    decreases j,
{
    if j == 0 {
        assert(ends.take(0) =~= Seq::<Stage>::empty());
    } else {
        lemma_kept_none(start, ends, j - 1);
        lemma_kept_step(start, ends, j - 1);
        if start is None && !found_new(ends[j - 1]) && !(forall|k: int|
            0 <= k < j ==> !found_new(#[trigger] ends[k])) {
            let k = choose|k: int| 0 <= k < j && found_new(#[trigger] ends[k]);
            assert(k < j - 1);
        }
    }
}

/// Over the searches of one attached process, the kept offsets never change
/// once a search has settled on offsets: there are none until the first search
/// that locates the player with new offsets, those are kept, and every later
/// search only retries them.
pub proof fn lemma_kept_offsets_settle(start: Option<WuwaOffset>, ends: Seq<Stage>)
    requires
        searches_in_turn(start, ends),
    ensures
        forall|i: int, j: int|
            0 <= i <= j <= ends.len() && (#[trigger] kept_through(start, ends.take(i))) is Some
                ==> #[trigger] kept_through(start, ends.take(j)) == kept_through(start, ends.take(i)),
        forall|j: int|
            0 <= j <= ends.len() ==> ((#[trigger] kept_through(start, ends.take(j))) is None <==> (
            start is None && forall|k: int| 0 <= k < j ==> !found_new(#[trigger] ends[k]))),
        forall|i: int|
            0 <= i < ends.len() && found_new(#[trigger] ends[i]) ==> {
                &&& kept_through(start, ends.take(i)) is None
                &&& kept_through(start, ends.take(i + 1)) is Some
                &&& ends[i] == Stage::Located(kept_through(start, ends.take(i + 1)))
            },
{
    assert forall|i: int, j: int|
        0 <= i <= j <= ends.len() && (#[trigger] kept_through(start, ends.take(i))) is Some
            implies #[trigger] kept_through(start, ends.take(j)) == kept_through(start, ends.take(i)) by {
        lemma_kept_stays(start, ends, i, j);
    }
    assert forall|j: int| 0 <= j <= ends.len() implies ((#[trigger] kept_through(start, ends.take(j)))
        is None <==> (start is None && forall|k: int| 0 <= k < j ==> !found_new(#[trigger] ends[k]))) by {
        lemma_kept_none(start, ends, j);
    }
    assert forall|i: int| 0 <= i < ends.len() && found_new(#[trigger] ends[i]) implies {
        &&& kept_through(start, ends.take(i)) is None
        &&& kept_through(start, ends.take(i + 1)) is Some
        &&& ends[i] == Stage::Located(kept_through(start, ends.take(i + 1)))
    } by {
        lemma_kept_step(start, ends, i);
        assert(reachable_from(kept_through(start, ends.take(i)), ends[i]));
    }
}

} // verus!
