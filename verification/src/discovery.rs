//! Searching near a stale world-pointer offset for one that still works.
//!
//! The candidates are the stale offset itself, then the offsets 8, 16, ...
//! bytes above and below it, up to 6 MB away; each positive candidate is
//! probed in turn until one leads to a readable transform.

use vstd::prelude::*;

verus! {

/// Number of 8-byte steps in 6 MB.
pub const MAX_STEPS: u64 = 0xC_0000;

/// Distance between neighbouring candidates.
pub const STEP: i64 = 8;

/// Number of positions in the candidate order.
pub open spec fn position_count() -> int {
    2 * MAX_STEPS + 1
}

/// Distance from the base of the candidate at position `p`.
pub open spec fn distance_at(p: int) -> int {
    8 * ((p + 1) / 2)
}

/// The candidate at position `p`: the base, then base + 8, base - 8, base + 16, ...
pub open spec fn candidate_at(base: i64, p: int) -> int {
    if p == 0 {
        base as int
    } else if p % 2 == 1 {
        base + distance_at(p)
    } else {
        base - distance_at(p)
    }
}

/// Computing the pair of candidates that starts at position `p` leaves the `i64` range.
pub open spec fn overflows_at(base: i64, p: int) -> bool {
    p % 2 == 1 && (base + distance_at(p) > i64::MAX || base - distance_at(p) < i64::MIN)
}

/// The scan stops at position `p`: it overflows there, or has a positive candidate to probe.
pub open spec fn stops_at(base: i64, p: int) -> bool {
    overflows_at(base, p) || candidate_at(base, p) > 0
}

/// The first position at or after `p` where the scan stops (`position_count()` if none).
pub open spec fn next_stop(base: i64, p: int) -> int
    decreases position_count() - p,
{
    if p >= position_count() {
        position_count()
    } else if stops_at(base, p) {
        p
    } else {
        next_stop(base, p + 1)
    }
}

/// What the scan asks for next.
#[derive(Clone, Copy, PartialEq, Eq, Structural, Debug)]
pub enum ScanStep {
    /// Probe this world-pointer offset.
    Probe(u64),
    /// This offset passed its probe.
    Found(u64),
    /// No candidate passed.
    Exhausted,
    /// The next pair of candidates does not fit in `i64`.
    Overflow,
}

/// The state of a scan.
pub struct GWorldScan {
    /// The stale offset, as a signed number.
    pub base: i64,
    /// The next position to consider.
    pub position: u64,
    /// The candidate handed out last and not yet judged.
    pub pending: Option<u64>,
}

proof fn lemma_next_stop_bounds(base: i64, p: int)
    ensures
        next_stop(base, p) >= p || next_stop(base, p) == position_count(),
        next_stop(base, p) <= position_count() || next_stop(base, p) == p,
        next_stop(base, p) < position_count() ==> stops_at(base, next_stop(base, p)),
        forall|q: int| p <= q < next_stop(base, p) && q < position_count() ==> !stops_at(base, q),
    decreases position_count() - p,
{
    if p < position_count() && !stops_at(base, p) {
        lemma_next_stop_bounds(base, p + 1);
    }
}

impl GWorldScan {
    pub open spec fn wf(&self) -> bool {
        &&& self.position <= position_count()
        &&& (self.position > 0 && self.position % 2 == 0 ==> !overflows_at(self.base, self.position - 1))
        &&& (self.pending matches Some(c) ==> {
            &&& self.position > 0
            &&& candidate_at(self.base, self.position - 1) > 0
            &&& c == candidate_at(self.base, self.position - 1) as u64
        })
    }

    /// A scan around `global_gworld`.
    pub fn new(global_gworld: u64) -> (r: GWorldScan)
        ensures
            r.wf(),
            r.base == global_gworld as i64,
            r.position == 0,
            r.pending is None,
    {
        GWorldScan { base: global_gworld as i64, position: 0, pending: None }
    }

    /// Takes the verdict on the pending candidate (`hit`: it passed its probe)
    /// and says what comes next.
    pub fn advance(&mut self, hit: bool) -> (r: ScanStep)
        requires
            old(self).wf(),
        ensures
            final(self).wf(),
            final(self).base == old(self).base,
            (old(self).pending is Some && hit) ==> {
                &&& r == ScanStep::Found(old(self).pending->0)
                &&& r == ScanStep::Found(candidate_at(old(self).base, old(self).position - 1) as u64)
                &&& *final(self) == *old(self)
            },
            !(old(self).pending is Some && hit) ==> {
                let q: int = next_stop(old(self).base, old(self).position as int);
                if q >= position_count() {
                    &&& r == ScanStep::Exhausted
                    &&& final(self).position == position_count()
                    &&& final(self).pending is None
                } else if overflows_at(old(self).base, q) {
                    &&& r == ScanStep::Overflow
                    &&& final(self).position == q
                    &&& final(self).pending is None
                } else {
                    &&& r == ScanStep::Probe(candidate_at(old(self).base, q) as u64)
                    &&& final(self).position == q + 1
                    &&& final(self).pending == Some(candidate_at(old(self).base, q) as u64)
                }
            },
    {
        if hit {
            if let Some(c) = self.pending {
                return ScanStep::Found(c);
            }
        }
        let ghost start = self.position as int;
        proof {
            lemma_next_stop_bounds(self.base, start);
        }
        let count: u64 = 2 * MAX_STEPS + 1;
        let mut pos: u64 = self.position;
        while pos < count
            invariant
                count == position_count(),
                start <= pos <= count,
                next_stop(self.base, start) == next_stop(self.base, pos as int),
                pos > 0 && pos % 2 == 0 ==> !overflows_at(self.base, pos - 1),
                self.base == old(self).base,
                start == old(self).position,
                !(old(self).pending is Some && hit),
            decreases count - pos,
        {
            let k: i64 = ((pos + 1) / 2) as i64;
            let delta: i64 = k * STEP;
            let candidate: i64;
            if pos == 0 {
                candidate = self.base;
            } else if pos % 2 == 1 {
                let up = self.base.checked_add(delta);
                let down = self.base.checked_sub(delta);
                match (up, down) {
                    (Some(u), Some(_)) => {
                        candidate = u;
                    },
                    _ => {
                        self.position = pos;
                        self.pending = None;
                        return ScanStep::Overflow;
                    },
                }
            } else {
                candidate = self.base - delta;
            }
            if candidate > 0 {
                self.position = pos + 1;
                self.pending = Some(candidate as u64);
                return ScanStep::Probe(candidate as u64);
            }
            pos = pos + 1;
        }
        self.position = count;
        self.pending = None;
        ScanStep::Exhausted
    }
}

/// Every candidate lies within 6 MB of the stale offset, a multiple of 8 bytes away.
pub proof fn lemma_candidates_near_base(base: i64, p: int)
    requires
        0 <= p < position_count(),
    ensures
        -0x60_0000 <= candidate_at(base, p) - base <= 0x60_0000,
        (candidate_at(base, p) - base) % 8 == 0,
{
    assert(0 <= (p + 1) / 2 <= MAX_STEPS);
}

/// Candidates come in order of their distance from the stale offset.
pub proof fn lemma_candidates_by_distance(p: int, q: int)
    requires
        0 <= p <= q,
    ensures
        distance_at(p) <= distance_at(q),
{
}

/// The stale offset itself is the first candidate, probed whenever it is positive.
pub proof fn lemma_base_first(base: i64)
    requires
        base > 0,
    ensures
        next_stop(base, 0) == 0,
        candidate_at(base, 0) == base,
{
}

/// The candidates in order: the stale offset, then for each step `k` of 8
/// bytes (up to 6 MB) the offset `k` steps above and the one `k` steps below.
pub proof fn lemma_candidate_order(base: i64, k: int)
    requires
        1 <= k <= MAX_STEPS,
    ensures
        candidate_at(base, 0) == base,
        candidate_at(base, 2 * k - 1) == base + 8 * k,
        candidate_at(base, 2 * k) == base - 8 * k,
        2 * k < position_count(),
{
    assert((2 * k - 1 + 1) / 2 == k);
    assert((2 * k + 1) / 2 == k);
}

/// The scan skips no positive candidate, above or below the stale offset: it
/// stops at each one, and from any position the next stop comes no later than
/// the next positive candidate.
pub proof fn lemma_every_positive_candidate_offered(base: i64, p: int)
    requires
        0 <= p < position_count(),
    ensures
        candidate_at(base, p) > 0 ==> stops_at(base, p),
        forall|q: int|
            p <= q < position_count() && candidate_at(base, q) > 0 ==> next_stop(base, p) <= q,
{
    lemma_next_stop_bounds(base, p);
    assert forall|q: int| p <= q < position_count() && candidate_at(base, q) > 0 implies next_stop(
        base,
        p,
    ) <= q by {
        assert(stops_at(base, q));
    }
}

/// Every positive offset `d` bytes below or above the stale one, for `d` a
/// multiple of 8 up to 6 MB, is a candidate at which the scan stops.
pub proof fn lemma_offsets_within_reach_offered(base: i64, k: int)
    requires
        1 <= k <= MAX_STEPS,
    ensures
        base - 8 * k > 0 ==> stops_at(base, 2 * k) && candidate_at(base, 2 * k) == base - 8 * k,
        base + 8 * k > 0 ==> stops_at(base, 2 * k - 1) && candidate_at(base, 2 * k - 1) == base + 8 * k,
{
    lemma_candidate_order(base, k);
}

} // verus!
