//! Following a pointer chain through the game's memory, one read at a time.
//!
//! A `ReadPlan` lists the reads of one walk. The caller asks it which read
//! comes next, performs that read in the other process, and hands back what
//! the read gave; the plan decides what the result means.

use vstd::prelude::*;
use crate::errors::{
    ErrorView, Label, NativeError, ValueKind, unreadable_value_message, unreadable_value_text,
};
use crate::mac_proc::{MacProc, pointer_error_text, resolved_pointer};

verus! {

/// One read of a walk.
#[derive(Clone, Copy, PartialEq, Eq, Structural, Debug)]
pub enum Step {
    /// Read a pointer at `offset` past the image base (`from_base`) or past the
    /// previous pointer.
    Pointer { label: Label, offset: u64, from_base: bool },
    /// Read a value at `offset` past the previous pointer.
    Value { kind: ValueKind, offset: u64 },
}

impl Step {
    pub open spec fn offset_of(self) -> u64 {
        match self {
            Step::Pointer { offset, .. } => offset,
            Step::Value { offset, .. } => offset,
        }
    }

    pub open spec fn starts_at_base(self) -> bool {
        match self {
            Step::Pointer { from_base, .. } => from_base,
            Step::Value { .. } => false,
        }
    }
}

/// How a walk ended, if it did.
pub enum FetchOutcome {
    /// More reads are needed.
    Pending,
    /// Every read succeeded.
    Reached,
    /// A read failed; the error says which.
    Failed(NativeError),
    /// A read failed during a quiet walk.
    Missed,
}

pub enum OutcomeView {
    Pending,
    Reached,
    Failed(ErrorView),
    Missed,
}

impl View for FetchOutcome {
    type V = OutcomeView;

    open spec fn view(&self) -> OutcomeView {
        match self {
            FetchOutcome::Pending => OutcomeView::Pending,
            FetchOutcome::Reached => OutcomeView::Reached,
            FetchOutcome::Failed(e) => OutcomeView::Failed(e@),
            FetchOutcome::Missed => OutcomeView::Missed,
        }
    }
}

/// What the walk needs next.
#[derive(Clone, Copy, PartialEq, Eq, Structural, Debug)]
pub enum ReadRequest {
    /// Read the 8-byte pointer at this address.
    Pointer(u64),
    /// Read the value at this address.
    Value(u64),
    /// The next address does not fit in 64 bits.
    Overflow,
    /// The walk has ended; see its outcome.
    Complete,
}

/// How a walk through a memory ends.
pub enum WalkEnd {
    Reached,
    Overflow,
    Failed(ErrorView),
    Missed,
}

/// How the walk through `steps` from read `next`, with `current` as the last
/// pointer, ends in a memory whose 8-byte words are `words` (`None`: unreadable)
/// and whose values at the ends of the chains are `readable` or not.
pub open spec fn chain_end(
    base: u64,
    steps: Seq<Step>,
    quiet: bool,
    next: int,
    current: u64,
    words: spec_fn(u64) -> Option<u64>,
    readable: spec_fn(u64) -> bool,
) -> WalkEnd
    decreases steps.len() - next,
{
    if next < 0 || next >= steps.len() {
        WalkEnd::Reached
    } else {
        let s = steps[next];
        let t: int = (if s.starts_at_base() {
            base
        } else {
            current
        }) + s.offset_of();
        if t > u64::MAX {
            WalkEnd::Overflow
        } else {
            match s {
                Step::Pointer { label, .. } => match resolved_pointer(words(t as u64)) {
                    Some(p) => chain_end(base, steps, quiet, next + 1, p, words, readable),
                    None => if quiet {
                        WalkEnd::Missed
                    } else {
                        WalkEnd::Failed(
                            ErrorView::PointerChainError(
                                pointer_error_text(t as u64, label, words(t as u64)),
                            ),
                        )
                    },
                },
                Step::Value { kind, .. } => if readable(t as u64) {
                    chain_end(base, steps, quiet, next + 1, current, words, readable)
                } else if quiet {
                    WalkEnd::Missed
                } else {
                    WalkEnd::Failed(ErrorView::ValueReadError(unreadable_value_text(kind, t as u64)))
                },
            }
        }
    }
}

/// The state of a walk.
pub struct ReadPlan {
    /// Image base the walk starts from.
    pub base: u64,
    /// The reads, in order.
    pub steps: Vec<Step>,
    /// A quiet walk records failures without a message.
    pub quiet: bool,
    /// Index of the next read.
    pub next: usize,
    /// The last pointer read (the base before the first).
    pub current: u64,
    pub outcome: FetchOutcome,
}

impl ReadPlan {
    pub open spec fn wf(&self) -> bool {
        &&& self.next <= self.steps.len()
        &&& (self.outcome is Pending ==> self.next < self.steps.len())
        &&& (self.outcome is Reached ==> self.next == self.steps.len())
        &&& (self.quiet ==> !(self.outcome is Failed))
        &&& (!self.quiet ==> !(self.outcome is Missed))
    }

    /// Address of the next read, as a mathematical integer.
    pub open spec fn target(&self) -> int {
        let s = self.steps@[self.next as int];
        (if s.starts_at_base() {
            self.base
        } else {
            self.current
        }) + s.offset_of()
    }

    pub open spec fn request_spec(&self) -> ReadRequest {
        if !(self.outcome is Pending) {
            ReadRequest::Complete
        } else if self.target() > u64::MAX {
            ReadRequest::Overflow
        } else {
            match self.steps@[self.next as int] {
                Step::Pointer { .. } => ReadRequest::Pointer(self.target() as u64),
                Step::Value { .. } => ReadRequest::Value(self.target() as u64),
            }
        }
    }

    /// How the walk ends when its remaining reads are answered by `words` and `readable`.
    pub open spec fn end_in(
        &self,
        words: spec_fn(u64) -> Option<u64>,
        readable: spec_fn(u64) -> bool,
    ) -> WalkEnd {
        match self.outcome@ {
            OutcomeView::Pending => chain_end(
                self.base,
                self.steps@,
                self.quiet,
                self.next as int,
                self.current,
                words,
                readable,
            ),
            OutcomeView::Reached => WalkEnd::Reached,
            OutcomeView::Failed(e) => WalkEnd::Failed(e),
            OutcomeView::Missed => WalkEnd::Missed,
        }
    }

    /// The parts of the plan that reads do not change.
    pub open spec fn same_course(&self, other: &ReadPlan) -> bool {
        &&& self.base == other.base
        &&& self.steps@ == other.steps@
        &&& self.quiet == other.quiet
    }

    /// A walk through `steps` from `base`.
    pub fn new(base: u64, steps: Vec<Step>, quiet: bool) -> (r: ReadPlan)
        requires
            steps.len() > 0,
        ensures
            r.wf(),
            r.base == base,
            r.steps@ == steps@,
            r.quiet == quiet,
            r.next == 0,
            r.current == base,
            r.outcome is Pending,
    {
        ReadPlan { base, steps, quiet, next: 0, current: base, outcome: FetchOutcome::Pending }
    }

    /// What the walk needs next.
    pub fn request(&self) -> (r: ReadRequest)
        requires
            self.wf(),
        ensures
            r == self.request_spec(),
            r == ReadRequest::Overflow ==> forall|
                words: spec_fn(u64) -> Option<u64>,
                readable: spec_fn(u64) -> bool,
            | #[trigger] self.end_in(words, readable) == WalkEnd::Overflow,
    {
        match &self.outcome {
            FetchOutcome::Pending => {},
            _ => return ReadRequest::Complete,
        }
        let s = self.steps[self.next];
        let (from, offset) = match s {
            Step::Pointer { offset, from_base, .. } => (
                if from_base {
                    self.base
                } else {
                    self.current
                },
                offset,
            ),
            Step::Value { offset, .. } => (self.current, offset),
        };
        match from.checked_add(offset) {
            None => ReadRequest::Overflow,
            Some(a) => match s {
                Step::Pointer { .. } => ReadRequest::Pointer(a),
                Step::Value { .. } => ReadRequest::Value(a),
            },
        }
    }

    /// Hands over what the pointer read gave (`None`: the memory could not be read).
    pub fn supply_pointer(&mut self, raw: Option<u64>)
        requires
            old(self).wf(),
            old(self).request_spec() is Pointer,
        ensures
            final(self).wf(),
            final(self).same_course(old(self)),
            forall|words: spec_fn(u64) -> Option<u64>, readable: spec_fn(u64) -> bool|
                words(old(self).target() as u64) == raw ==> #[trigger] final(self).end_in(
                    words,
                    readable,
                ) == old(self).end_in(words, readable),
            match resolved_pointer(raw) {
                Some(p) => {
                    &&& final(self).current == p
                    &&& final(self).next == old(self).next + 1
                    &&& final(self).outcome@ == (if final(self).next == old(self).steps.len() {
                        OutcomeView::Reached
                    } else {
                        OutcomeView::Pending
                    })
                },
                None => {
                    &&& final(self).current == old(self).current
                    &&& final(self).next == old(self).next
                    &&& final(self).outcome@ == (if old(self).quiet {
                        OutcomeView::Missed
                    } else {
                        OutcomeView::Failed(
                            ErrorView::PointerChainError(
                                pointer_error_text(
                                    old(self).target() as u64,
                                    old(self).steps@[old(self).next as int]->label,
                                    raw,
                                ),
                            ),
                        )
                    })
                },
            },
    {
        let s = self.steps[self.next];
        let (label, offset, from_base) = match s {
            Step::Pointer { label, offset, from_base } => (label, offset, from_base),
            Step::Value { .. } => {
                proof {
                    assert(false);
                }
                return ;
            },
        };
        let from: u64 = if from_base {
            self.base
        } else {
            self.current
        };
        let address: u64 = from + offset;
        let resolved = if self.quiet {
            match MacProc::read_pointer_quiet(raw) {
                Some(p) => Ok(p),
                None => Err(FetchOutcome::Missed),
            }
        } else {
            match MacProc::read_pointer(address, label, raw) {
                Ok(p) => Ok(p),
                Err(e) => Err(FetchOutcome::Failed(e)),
            }
        };
        match resolved {
            Ok(p) => {
                self.current = p;
                self.next = self.next + 1;
                if self.next == self.steps.len() {
                    self.outcome = FetchOutcome::Reached;
                }
            },
            Err(o) => {
                self.outcome = o;
            },
        }
    }

    /// Hands over whether the value read succeeded.
    pub fn supply_value(&mut self, readable: bool)
        requires
            old(self).wf(),
            old(self).request_spec() is Value,
        ensures
            final(self).wf(),
            final(self).same_course(old(self)),
            final(self).current == old(self).current,
            forall|words: spec_fn(u64) -> Option<u64>, values: spec_fn(u64) -> bool|
                values(old(self).target() as u64) == readable ==> #[trigger] final(self).end_in(
                    words,
                    values,
                ) == old(self).end_in(words, values),
            readable ==> {
                &&& final(self).next == old(self).next + 1
                &&& final(self).outcome@ == (if final(self).next == old(self).steps.len() {
                    OutcomeView::Reached
                } else {
                    OutcomeView::Pending
                })
            },
            !readable ==> {
                &&& final(self).next == old(self).next
                &&& final(self).outcome@ == (if old(self).quiet {
                    OutcomeView::Missed
                } else {
                    OutcomeView::Failed(
                        ErrorView::ValueReadError(
                            unreadable_value_text(
                                old(self).steps@[old(self).next as int]->kind,
                                old(self).target() as u64,
                            ),
                        ),
                    )
                })
            },
    {
        let s = self.steps[self.next];
        let (kind, offset) = match s {
            Step::Value { kind, offset } => (kind, offset),
            Step::Pointer { .. } => {
                proof {
                    assert(false);
                }
                return ;
            },
        };
        if readable {
            self.next = self.next + 1;
            if self.next == self.steps.len() {
                self.outcome = FetchOutcome::Reached;
            }
        } else if self.quiet {
            self.outcome = FetchOutcome::Missed;
        } else {
            let address: u64 = self.current + offset;
            self.outcome = FetchOutcome::Failed(
                NativeError::ValueReadError { message: unreadable_value_message(kind, address) },
            );
        }
    }

    /// How the walk ended, if it did.
    pub fn outcome(&self) -> (r: &FetchOutcome)
        ensures
            r == self.outcome,
    {
        &self.outcome
    }
}

/// A quiet walk and a loud one through the same reads of the same memory get
/// through alike: they differ only in how they report a failed read.
pub proof fn lemma_quiet_walk_agrees(
    base: u64,
    steps: Seq<Step>,
    next: int,
    current: u64,
    words: spec_fn(u64) -> Option<u64>,
    readable: spec_fn(u64) -> bool,
)
    ensures
        chain_end(base, steps, true, next, current, words, readable) is Reached <==> chain_end(
            base,
            steps,
            false,
            next,
            current,
            words,
            readable,
        ) is Reached,
    decreases steps.len() - next,
{
    if 0 <= next < steps.len() {
        let s = steps[next];
        let t: int = (if s.starts_at_base() {
            base
        } else {
            current
        }) + s.offset_of();
        if t <= u64::MAX {
            match s {
                Step::Pointer { .. } => {
                    if let Some(p) = resolved_pointer(words(t as u64)) {
                        lemma_quiet_walk_agrees(base, steps, next + 1, p, words, readable);
                    }
                },
                Step::Value { .. } => {
                    lemma_quiet_walk_agrees(base, steps, next + 1, current, words, readable);
                },
            }
        }
    }
}

/// A walk that gets through all its reads gets through the first `k` of them.
pub proof fn lemma_walk_prefix(
    base: u64,
    steps: Seq<Step>,
    k: int,
    quiet: bool,
    next: int,
    current: u64,
    words: spec_fn(u64) -> Option<u64>,
    readable: spec_fn(u64) -> bool,
)
    requires
        0 <= k <= steps.len(),
        0 <= next,
        chain_end(base, steps, quiet, next, current, words, readable) is Reached,
    ensures
        chain_end(base, steps.take(k), quiet, next, current, words, readable) is Reached,
    decreases steps.len() - next,
{
    if next < k {
        let s = steps[next];
        assert(steps.take(k)[next] == s);
        let t: int = (if s.starts_at_base() {
            base
        } else {
            current
        }) + s.offset_of();
        match s {
            Step::Pointer { .. } => {
                if let Some(p) = resolved_pointer(words(t as u64)) {
                    lemma_walk_prefix(base, steps, k, quiet, next + 1, p, words, readable);
                }
            },
            Step::Value { .. } => {
                lemma_walk_prefix(base, steps, k, quiet, next + 1, current, words, readable);
            },
        }
    }
}

} // verus!
