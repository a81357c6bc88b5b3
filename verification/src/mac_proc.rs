//! The attached game process (macOS): its identity, the offsets in use, and the
//! decisions taken on what the operating system reports about it.

use vstd::prelude::*;
use crate::discovery::GWorldScan;
use crate::errors::{
    ConnectError, ErrorView, Label, NativeError, ValueKind, invalid_pointer_message,
    invalid_pointer_text, unreadable_pointer_message, unreadable_pointer_text,
};
use crate::fetch::{ReadPlan, Step, chain_end, lemma_quiet_walk_agrees, lemma_walk_prefix};
use crate::locator::{Locator, Stage, kept_after, reachable_from};
use crate::names::{ProcessEntry, candidate_matches, first_selected, normalized};
use crate::offsets::WuwaOffset;
use crate::text::{chars_of, push_char, seq_contains};

verus! {

/// Mask of the 48 address bits of a pointer.
pub const ADDRESS_MASK: u64 = 0x0000_FFFF_FFFF_FFFF;

/// Smallest address taken for a valid pointer.
pub const MIN_POINTER: u64 = 0x1_0000;

/// `errno` of a signal refused for lack of permission.
pub const EPERM: i32 = 1;

/// Kernel return code of a refused `task_for_pid`.
pub const KERN_PERMISSION_REFUSED: i32 = 5;

/// A raw pointer with its tag bits removed, or 0 when it cannot be a pointer.
pub open spec fn normalized_pointer(raw: u64) -> u64 {
    if raw & ADDRESS_MASK < MIN_POINTER {
        0
    } else {
        raw & ADDRESS_MASK
    }
}

/// The pointer a raw read yields: the normalised value, when there was one and it is not 0.
pub open spec fn resolved_pointer(raw: Option<u64>) -> Option<u64> {
    match raw {
        Some(r) => if normalized_pointer(r) == 0 {
            None
        } else {
            Some(normalized_pointer(r))
        },
        None => None,
    }
}

/// Text of the error for a pointer read at `address` that gave `raw`.
pub open spec fn pointer_error_text(address: u64, label: Label, raw: Option<u64>) -> Seq<char> {
    match raw {
        Some(r) => invalid_pointer_text(label, r, normalized_pointer(r)),
        None => unreadable_pointer_text(label, address),
    }
}

/// A normalised pointer is 0 or an address in `[0x10000, 2^48)`.
pub proof fn lemma_normalized_pointer_range(raw: u64)
    ensures
        normalized_pointer(raw) == 0 || (MIN_POINTER <= normalized_pointer(raw)
            && normalized_pointer(raw) <= ADDRESS_MASK),
{
    assert(raw & 0x0000_FFFF_FFFF_FFFF <= 0x0000_FFFF_FFFF_FFFF) by (bit_vector);
}

/// Normalising a normalised pointer changes nothing.
pub proof fn lemma_normalize_idempotent(raw: u64)
    ensures
        normalized_pointer(normalized_pointer(raw)) == normalized_pointer(raw),
{
    let m: u64 = raw & 0x0000_FFFF_FFFF_FFFF;
    assert(m & 0x0000_FFFF_FFFF_FFFF == m) by (bit_vector)
        requires
            m == raw & 0x0000_FFFF_FFFF_FFFF,
    ;
    assert(0u64 & 0x0000_FFFF_FFFF_FFFF == 0) by (bit_vector);
}

/// An address without tag bits, at or above `0x10000`, is its own normalisation.
pub proof fn lemma_plain_pointer_unchanged(raw: u64)
    requires
        MIN_POINTER <= raw <= ADDRESS_MASK,
    ensures
        normalized_pointer(raw) == raw,
{
    assert(raw & 0x0000_FFFF_FFFF_FFFF == raw) by (bit_vector)
        requires
            raw <= 0x0000_FFFF_FFFF_FFFF,
    ;
}

/// Only the low 48 bits of a raw value decide its normalisation.
pub proof fn lemma_tag_bits_ignored(a: u64, b: u64)
    requires
        a & ADDRESS_MASK == b & ADDRESS_MASK,
    ensures
        normalized_pointer(a) == normalized_pointer(b),
{
}

/// Every pointer a walk keeps is an address in `[0x10000, 2^48)`.
pub proof fn lemma_resolved_pointer_is_address(raw: Option<u64>)
    ensures
        resolved_pointer(raw) matches Some(p) ==> MIN_POINTER <= p <= ADDRESS_MASK,
{
    if let Some(r) = raw {
        lemma_normalized_pointer_range(r);
    }
}

/// Which raw values a pointer read accepts: exactly those whose normalisation
/// is not 0, and it yields that normalisation. In bits: the low 48 bits are
/// kept, and accepted when they are at least `0x10000`; so an untagged address
/// in `[0x10000, 2^48)` (any user-space address, above 4 GB as well) is taken
/// as it is, and a failed read yields nothing.
pub proof fn lemma_pointer_acceptance(raw: u64)
    ensures
        resolved_pointer(None) is None,
        normalized_pointer(raw) != 0 ==> resolved_pointer(Some(raw)) == Some(normalized_pointer(raw)),
        normalized_pointer(raw) == 0 ==> resolved_pointer(Some(raw)) is None,
        MIN_POINTER <= raw & ADDRESS_MASK ==> resolved_pointer(Some(raw)) == Some(raw & ADDRESS_MASK),
        raw & ADDRESS_MASK < MIN_POINTER ==> resolved_pointer(Some(raw)) is None,
        MIN_POINTER <= raw <= ADDRESS_MASK ==> resolved_pointer(Some(raw)) == Some(raw),
{
    if MIN_POINTER <= raw <= ADDRESS_MASK {
        lemma_plain_pointer_unchanged(raw);
    }
}

/// The reads that locate the player with `offset`: the chain from the world
/// pointer to the root component's transform, then the chain from the world
/// pointer to the persistent level's world origin.
pub open spec fn location_steps(offset: WuwaOffset) -> Seq<Step> {
    seq![
        Step::Pointer { label: Label::GWorld, offset: offset.global_gworld, from_base: true },
        Step::Pointer { label: Label::OwningGameInstance, offset: offset.uworld_owninggameinstance, from_base: false },
        Step::Pointer { label: Label::LocalPlayers, offset: offset.ugameinstance_localplayers, from_base: false },
        Step::Pointer { label: Label::LocalPlayer, offset: 0, from_base: false },
        Step::Pointer { label: Label::PlayerController, offset: offset.uplayer_playercontroller, from_base: false },
        Step::Pointer { label: Label::Pawn, offset: offset.aplayercontroller_acknowlegedpawn, from_base: false },
        Step::Pointer { label: Label::RootComponent, offset: offset.aactor_rootcomponent, from_base: false },
        Step::Value { kind: ValueKind::Transform, offset: offset.uscenecomponent_componenttoworld },
        Step::Pointer { label: Label::GWorld, offset: offset.global_gworld, from_base: true },
        Step::Pointer { label: Label::PersistentLevel, offset: offset.uworld_persistentlevel, from_base: false },
        Step::Value { kind: ValueKind::WorldOrigin, offset: offset.ulevel_lastworldorigin },
    ]
}

/// The reads that check whether `global_gworld` leads, with `offset`, to a
/// readable transform.
pub open spec fn probe_steps(global_gworld: u64, offset: WuwaOffset) -> Seq<Step> {
    seq![
        Step::Pointer { label: Label::GWorld, offset: global_gworld, from_base: true },
        Step::Pointer { label: Label::OwningGameInstance, offset: offset.uworld_owninggameinstance, from_base: false },
        Step::Pointer { label: Label::LocalPlayers, offset: offset.ugameinstance_localplayers, from_base: false },
        Step::Pointer { label: Label::LocalPlayer, offset: 0, from_base: false },
        Step::Pointer { label: Label::PlayerController, offset: offset.uplayer_playercontroller, from_base: false },
        Step::Pointer { label: Label::Pawn, offset: offset.aplayercontroller_acknowlegedpawn, from_base: false },
        Step::Pointer { label: Label::RootComponent, offset: offset.aactor_rootcomponent, from_base: false },
        Step::Value { kind: ValueKind::Transform, offset: offset.uscenecomponent_componenttoworld },
    ]
}

/// A probe of `global_gworld` reads exactly what locating the player with the
/// offsets moved to `global_gworld` reads first, up to the transform.
pub proof fn lemma_probe_is_location_prefix(global_gworld: u64, offset: WuwaOffset)
    ensures
        probe_steps(global_gworld, offset) == location_steps(offset.with_gworld(global_gworld)).take(8),
{
    assert(probe_steps(global_gworld, offset) =~= location_steps(offset.with_gworld(global_gworld)).take(8));
}

/// The probe of `global_gworld` passes in a memory exactly when locating the
/// player with the offsets moved to `global_gworld` gets through its transform
/// read there; so the probe passes whenever that location succeeds.
pub proof fn lemma_probe_passes_with_location(
    base: u64,
    global_gworld: u64,
    offset: WuwaOffset,
    words: spec_fn(u64) -> Option<u64>,
    readable: spec_fn(u64) -> bool,
)
    ensures
        chain_end(base, probe_steps(global_gworld, offset), true, 0, base, words, readable) is Reached
            <==> chain_end(
            base,
            location_steps(offset.with_gworld(global_gworld)).take(8),
            false,
            0,
            base,
            words,
            readable,
        ) is Reached,
        chain_end(base, location_steps(offset.with_gworld(global_gworld)), false, 0, base, words, readable)
            is Reached ==> chain_end(
            base,
            probe_steps(global_gworld, offset),
            true,
            0,
            base,
            words,
            readable,
        ) is Reached,
{
    lemma_probe_is_location_prefix(global_gworld, offset);
    lemma_quiet_walk_agrees(base, probe_steps(global_gworld, offset), 0, base, words, readable);
    let full = location_steps(offset.with_gworld(global_gworld));
    if chain_end(base, full, false, 0, base, words, readable) is Reached {
        lemma_walk_prefix(base, full, 8, false, 0, base, words, readable);
    }
}

/// An attached game process.
pub struct MacProc {
    pid: i32,
    task: u32,
    /// Load address of the main executable image.
    pub base_addr: u64,
    offset: Option<WuwaOffset>,
}

impl MacProc {
    pub closed spec fn pid(&self) -> i32 {
        self.pid
    }

    /// Load address of the main executable image.
    pub closed spec fn base(&self) -> u64 {
        self.base_addr
    }

    pub closed spec fn task(&self) -> u32 {
        self.task
    }

    /// The offsets found to work, kept for the next reads.
    pub closed spec fn active_offset(&self) -> Option<WuwaOffset> {
        self.offset
    }

    /// The process with id `pid`, reached through the task port `task`, whose main
    /// image is loaded at `base_addr`; no offsets are chosen yet.
    pub fn from_parts(pid: i32, task: u32, base_addr: u64) -> (r: MacProc)
        ensures
            r.pid() == pid,
            r.task() == task,
            r.base() == base_addr,
            r.active_offset() is None,
    {
        MacProc { pid, task, base_addr, offset: None }
    }

    pub fn pid_value(&self) -> (r: i32)
        ensures
            r == self.pid(),
    {
        self.pid
    }

    pub fn task_port(&self) -> (r: u32)
        ensures
            r == self.task(),
    {
        self.task
    }

    /// Name of the offsets in use.
    pub fn get_active_offset_name(&self) -> (r: Option<String>)
        ensures
            r == (match self.active_offset() {
                Some(o) => Some(o.name),
                None => None,
            }),
    {
        match &self.offset {
            Some(o) => Some(o.name.clone()),
            None => None,
        }
    }

    /// The pid to probe with a null signal, when there is one to probe.
    pub fn signal_target(&self) -> (r: Option<i32>)
        ensures
            r == (if self.pid() > 0 { Some(self.pid()) } else { None }),
    {
        if self.pid <= 0 {
            None
        } else {
            Some(self.pid)
        }
    }

    /// Whether the process is alive, given what a null signal to `signal_target()`
    /// returned (`kill_result`, and `errno` when it failed): it is when the pid is
    /// positive and the signal was accepted, or refused only for lack of permission.
    pub fn is_alive(&self, kill_result: i32, errno: Option<i32>) -> (r: bool)
        ensures
            r == (self.pid() > 0 && (kill_result == 0 || errno == Some(EPERM))),
    {
        if self.pid <= 0 {
            return false;
        }
        if kill_result == 0 {
            return true;
        }
        match errno {
            Some(e) => e == EPERM,
            None => false,
        }
    }

    /// Removes the tag bits above the 48-bit address space; values below
    /// `0x10000` are no pointers and give 0.
    pub fn normalize_pointer(raw: u64) -> (r: u64)
        ensures
            r == normalized_pointer(raw),
    {
        let masked: u64 = raw & ADDRESS_MASK;
        if masked < MIN_POINTER {
            return 0;
        }
        masked
    }

    /// The pointer read at `address` (step `label` of a chain), given what the
    /// read gave: `None` when the memory could not be read.
    pub fn read_pointer(address: u64, label: Label, raw: Option<u64>) -> (r: Result<u64, NativeError>)
        ensures
            match resolved_pointer(raw) {
                Some(p) => r == Ok::<u64, NativeError>(p),
                None => r matches Err(e) && e@ == ErrorView::PointerChainError(
                    pointer_error_text(address, label, raw),
                ),
            },
    {
        match raw {
            None => Err(NativeError::PointerChainError {
                message: unreadable_pointer_message(label, address),
            }),
            Some(raw) => {
                let normalized: u64 = Self::normalize_pointer(raw);
                if normalized == 0 {
                    return Err(NativeError::PointerChainError {
                        message: invalid_pointer_message(label, raw, normalized),
                    });
                }
                Ok(normalized)
            },
        }
    }

    /// The pointer a read yielded, without an error message.
    pub fn read_pointer_quiet(raw: Option<u64>) -> (r: Option<u64>)
        ensures
            r == resolved_pointer(raw),
    {
        let raw: u64 = match raw {
            Some(v) => v,
            None => return None,
        };
        let normalized: u64 = Self::normalize_pointer(raw);
        if normalized == 0 {
            return None;
        }
        Some(normalized)
    }

    /// The ASCII letters and digits of `value`, lower-cased.
    pub fn normalize_name(value: &str) -> (r: String)
        ensures
            r@ == normalized(value@),
    {
        let mut r = String::new();
        for c in it: value.chars()
            invariant
                it.seq() == value@,
                r@ == normalized(it.seq().take(it.index() as int)),
        {
            let ghost prefix = it.seq().take(it.index() as int);
            let ghost next = it.seq().take(it.index() + 1);
            proof {
                assert(next.drop_last() =~= prefix);
            }
            if ('0' <= c && c <= '9') || ('a' <= c && c <= 'z') {
                push_char(&mut r, c);
            } else if 'A' <= c && c <= 'Z' {
                let v: u32 = c as u32;
                let b: u8 = (v + 32) as u8;
                push_char(&mut r, b as char);
            }
        }
        proof {
            assert(value@.take(value@.len() as int) =~= value@);
        }
        r
    }

    /// Whether the searched-for `candidate` names the process `proc_name`
    /// (whose executable file is `proc_basename`).
    pub fn candidate_match(candidate: &str, proc_name: &str, proc_basename: Option<&str>) -> (r: bool)
        ensures
            r == candidate_matches(
                candidate@,
                proc_name@,
                match proc_basename {
                    Some(b) => Some(b@),
                    None => None,
                },
            ),
    {
        let cand = Self::normalize_name(candidate);
        let name = Self::normalize_name(proc_name);
        let cand_chars = chars_of(cand.as_str());
        let name_chars = chars_of(name.as_str());
        if cand_chars.len() > 0 && (name == cand || seq_contains(&name_chars, &cand_chars)
            || seq_contains(&cand_chars, &name_chars)) {
            return true;
        }
        if let Some(base) = proc_basename {
            let base_n = Self::normalize_name(base);
            let base_chars = chars_of(base_n.as_str());
            if base_chars.len() > 0 && (base_n == cand || seq_contains(&base_chars, &cand_chars)
                || seq_contains(&cand_chars, &base_chars)) {
                return true;
            }
        }
        false
    }

    /// The pid of the first listed process that `name` names: a positive pid
    /// whose name could be read and matches.
    pub fn find_pid_by_name(name: &str, processes: &Vec<ProcessEntry>) -> (r: Option<i32>)
        ensures
            r == first_selected(name@, processes@),
    {
        let mut i: usize = 0;
        proof {
            assert(processes@.skip(0) =~= processes@);
        }
        while i < processes.len()
            invariant
                i <= processes.len(),
                first_selected(name@, processes@) == first_selected(
                    name@,
                    processes@.skip(i as int),
                ),
            decreases processes.len() - i,
        {
            let e = &processes[i];
            proof {
                assert(processes@.skip(i as int)[0] == processes@[i as int]);
                assert(processes@.skip(i as int).drop_first() =~= processes@.skip(i + 1));
            }
            if e.pid > 0 {
                if let Some(proc_name) = &e.name {
                    let base = match &e.basename {
                        Some(b) => Some(b.as_str()),
                        None => None,
                    };
                    if Self::candidate_match(name, proc_name.as_str(), base) {
                        return Some(e.pid);
                    }
                }
            }
            i = i + 1;
        }
        proof {
            assert(processes@.skip(i as int) =~= Seq::<ProcessEntry>::empty());
        }
        None
    }

    /// The walk that reads the player's transform and the world origin with `offset`.
    pub fn get_location_with_offset(&self, offset: &WuwaOffset) -> (r: ReadPlan)
        ensures
            r.wf(),
            r.base == self.base(),
            r.steps@ == location_steps(*offset),
            !r.quiet,
            r.next == 0,
            r.current == self.base(),
            r.outcome is Pending,
    {
        let steps = vec![
            Step::Pointer { label: Label::GWorld, offset: offset.global_gworld, from_base: true },
            Step::Pointer { label: Label::OwningGameInstance, offset: offset.uworld_owninggameinstance, from_base: false },
            Step::Pointer { label: Label::LocalPlayers, offset: offset.ugameinstance_localplayers, from_base: false },
            Step::Pointer { label: Label::LocalPlayer, offset: 0, from_base: false },
            Step::Pointer { label: Label::PlayerController, offset: offset.uplayer_playercontroller, from_base: false },
            Step::Pointer { label: Label::Pawn, offset: offset.aplayercontroller_acknowlegedpawn, from_base: false },
            Step::Pointer { label: Label::RootComponent, offset: offset.aactor_rootcomponent, from_base: false },
            Step::Value { kind: ValueKind::Transform, offset: offset.uscenecomponent_componenttoworld },
            Step::Pointer { label: Label::GWorld, offset: offset.global_gworld, from_base: true },
            Step::Pointer { label: Label::PersistentLevel, offset: offset.uworld_persistentlevel, from_base: false },
            Step::Value { kind: ValueKind::WorldOrigin, offset: offset.ulevel_lastworldorigin },
        ];
        proof {
            assert(steps@ =~= location_steps(*offset));
        }
        ReadPlan::new(self.base_addr, steps, false)
    }

    /// The quiet walk that checks whether `global_gworld` leads to a readable
    /// transform with `offset`; it succeeds exactly when its outcome is `Reached`.
    pub fn quick_chain_probe(&self, global_gworld: u64, offset: &WuwaOffset) -> (r: ReadPlan)
        ensures
            r.wf(),
            r.base == self.base(),
            r.steps@ == probe_steps(global_gworld, *offset),
            r.quiet,
            r.next == 0,
            r.current == self.base(),
            r.outcome is Pending,
    {
        let steps = vec![
            Step::Pointer { label: Label::GWorld, offset: global_gworld, from_base: true },
            Step::Pointer { label: Label::OwningGameInstance, offset: offset.uworld_owninggameinstance, from_base: false },
            Step::Pointer { label: Label::LocalPlayers, offset: offset.ugameinstance_localplayers, from_base: false },
            Step::Pointer { label: Label::LocalPlayer, offset: 0, from_base: false },
            Step::Pointer { label: Label::PlayerController, offset: offset.uplayer_playercontroller, from_base: false },
            Step::Pointer { label: Label::Pawn, offset: offset.aplayercontroller_acknowlegedpawn, from_base: false },
            Step::Pointer { label: Label::RootComponent, offset: offset.aactor_rootcomponent, from_base: false },
            Step::Value { kind: ValueKind::Transform, offset: offset.uscenecomponent_componenttoworld },
        ];
        proof {
            assert(steps@ =~= probe_steps(global_gworld, *offset));
        }
        ReadPlan::new(self.base_addr, steps, true)
    }

    /// The scan for a working world-pointer offset near `offset.global_gworld`;
    /// each candidate it offers is checked with `quick_chain_probe`.
    pub fn discover_global_gworld(offset: &WuwaOffset) -> (r: GWorldScan)
        ensures
            r.wf(),
            r.base == offset.global_gworld as i64,
            r.position == 0,
            r.pending is None,
    {
        GWorldScan::new(offset.global_gworld)
    }

    /// The search for offsets that locate the player, given whether the process
    /// is alive and the builds on offer (`None` while they are being loaded).
    pub fn get_location(&self, alive: bool, available_offsets: &Option<Vec<WuwaOffset>>) -> (r: Locator)
        ensures
            r.wf(),
            reachable_from(self.active_offset(), r.stage()),
            !alive ==> r.stage() == Stage::Failed(ErrorView::ProcessTerminated),
            alive && available_offsets is None ==> r.stage() == Stage::Failed(
                ErrorView::PointerChainError(crate::errors::offsets_loading_text()),
            ),
            alive && available_offsets is Some && self.active_offset() is Some ==> r.stage()
                == Stage::Cached(self.active_offset()->0),
            alive && available_offsets is Some && self.active_offset() is None ==> {
                &&& r.variants@ == available_offsets->0@
                &&& r.failures@.len() == 0
                &&& r.stage() == crate::locator::settle(
                    Stage::Variant(0),
                    r.variants.len() as int,
                    Seq::empty(),
                )
            },
    {
        Locator::start(alive, available_offsets, &self.offset)
    }

    /// Ends a finished search: keeps the offsets it settled on, and says
    /// whether the player was located.
    pub fn conclude_location(&mut self, search: Locator) -> (r: Result<(), NativeError>)
        requires
            search.phase is Finished,
        ensures
            final(self).pid() == old(self).pid(),
            final(self).task() == old(self).task(),
            final(self).base() == old(self).base(),
            final(self).active_offset() == kept_after(old(self).active_offset(), search.stage()),
            match search.stage() {
                Stage::Located(Some(o)) => r is Ok && final(self).active_offset() == Some(o),
                Stage::Located(None) => r is Ok && final(self).active_offset() == old(self).active_offset(),
                Stage::Failed(e) => (r matches Err(x) && x@ == e) && final(self).active_offset()
                    == old(self).active_offset(),
                _ => false,
            },
    {
        match search.into_result() {
            Ok(Some(o)) => {
                self.offset = Some(o);
                Ok(())
            },
            Ok(None) => Ok(()),
            Err(e) => Err(e),
        }
    }

    /// What a `task_for_pid` call for `pid` that returned `kr` and the port
    /// `task` means for the attachment.
    pub fn check_task_port(pid: i32, kr: i32, task: u32) -> (r: Result<(), ConnectError>)
        ensures
            r == (if kr != 0 || task == 0 {
                if kr == KERN_PERMISSION_REFUSED {
                    Err::<(), ConnectError>(ConnectError::PermissionDenied { pid })
                } else {
                    Err(ConnectError::TaskForPidFailed { pid, kr })
                }
            } else {
                Ok(())
            }),
    {
        if kr != 0 || task == 0 {
            if kr == KERN_PERMISSION_REFUSED {
                return Err(ConnectError::PermissionDenied { pid });
            }
            return Err(ConnectError::TaskForPidFailed { pid, kr });
        }
        Ok(())
    }
}

} // verus!
