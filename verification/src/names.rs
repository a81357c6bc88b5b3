//! How a process is recognised by name.

use vstd::prelude::*;
use crate::text::contains;

verus! {

/// ASCII letter or digit.
pub open spec fn is_ascii_alnum(c: char) -> bool {
    ('0' <= c && c <= '9') || ('a' <= c && c <= 'z') || ('A' <= c && c <= 'Z')
}

/// ASCII lower-casing; other characters are left as they are.
pub open spec fn ascii_lower(c: char) -> char {
    if 'A' <= c && c <= 'Z' {
        ((c as u32) + 32) as char
    } else {
        c
    }
}

/// The ASCII letters and digits of `s`, lower-cased, in order.
pub open spec fn normalized(s: Seq<char>) -> Seq<char>
    decreases s.len(),
{
    if s.len() == 0 {
        Seq::empty()
    } else if is_ascii_alnum(s.last()) {
        normalized(s.drop_last()).push(ascii_lower(s.last()))
    } else {
        normalized(s.drop_last())
    }
}

/// Whether the normalised names `a` and `b` match: equal, or one inside the other.
pub open spec fn names_overlap(a: Seq<char>, b: Seq<char>) -> bool {
    a == b || contains(a, b) || contains(b, a)
}

/// Whether a searched-for `candidate` names a process called `proc_name`
/// whose executable file is `proc_basename`.
pub open spec fn candidate_matches(
    candidate: Seq<char>,
    proc_name: Seq<char>,
    proc_basename: Option<Seq<char>>,
) -> bool {
    let cand = normalized(candidate);
    let name = normalized(proc_name);
    ||| (cand.len() > 0 && names_overlap(name, cand))
    ||| (match proc_basename {
        Some(base) => {
            let base_n = normalized(base);
            base_n.len() > 0 && names_overlap(base_n, cand)
        },
        None => false,
    })
}

/// A process is taken for a name only when the normalised name and the
/// normalised process name, or the normalised executable file name, are equal
/// or one contains the other; names of which neither contains the other never
/// match. The process name counts only for a non-empty normalised name, the
/// file name only when its own normalisation is not empty.
pub proof fn lemma_match_needs_containment(
    candidate: Seq<char>,
    proc_name: Seq<char>,
    proc_basename: Option<Seq<char>>,
)
    ensures
        candidate_matches(candidate, proc_name, proc_basename) <==> ({
            let c = normalized(candidate);
            let n = normalized(proc_name);
            ||| (c.len() > 0 && (n == c || contains(n, c) || contains(c, n)))
            ||| (proc_basename matches Some(b) && normalized(b).len() > 0 && (normalized(b) == c
                || contains(normalized(b), c) || contains(c, normalized(b))))
        }),
{
}

/// One entry of the process list.
pub struct ProcessEntry {
    /// Process id.
    pub pid: i32,
    /// Process name, when it could be read.
    pub name: Option<String>,
    /// File name of the executable, when its path could be read.
    pub basename: Option<String>,
}

/// The view of a basename.
pub open spec fn basename_view(b: Option<String>) -> Option<Seq<char>> {
    match b {
        Some(s) => Some(s@),
        None => None,
    }
}

/// Whether the process list entry `e` is taken for `name`.
pub open spec fn entry_selected(name: Seq<char>, e: ProcessEntry) -> bool {
    &&& e.pid > 0
    &&& e.name is Some
    &&& candidate_matches(name, e.name->0@, basename_view(e.basename))
}

/// The pid of the first entry taken for `name`.
pub open spec fn first_selected(name: Seq<char>, entries: Seq<ProcessEntry>) -> Option<i32>
    decreases entries.len(),
{
    if entries.len() == 0 {
        None
    } else if entry_selected(name, entries[0]) {
        Some(entries[0].pid)
    } else {
        first_selected(name, entries.drop_first())
    }
}

/// A pid is only ever picked from a listed entry that is taken for the name;
/// no earlier entry is taken.
pub proof fn lemma_selected_pid_is_listed(name: Seq<char>, entries: Seq<ProcessEntry>)
    ensures
        first_selected(name, entries) matches Some(pid) ==> exists|i: int|
            0 <= i < entries.len() && #[trigger] entries[i].pid == pid && entry_selected(name, entries[i])
                && forall|k: int| 0 <= k < i ==> !entry_selected(name, #[trigger] entries[k]),
        first_selected(name, entries) is None ==> forall|k: int|
            0 <= k < entries.len() ==> !entry_selected(name, #[trigger] entries[k]),
    decreases entries.len(),
{
    if entries.len() > 0 {
        let rest = entries.drop_first();
        lemma_selected_pid_is_listed(name, rest);
        if entry_selected(name, entries[0]) {
            // The first entry is taken, and its pid is the one picked.
            assert(first_selected(name, entries) == Some(entries[0].pid));
        } else {
            if let Some(pid) = first_selected(name, rest) {
                let i = choose|i: int|
                    0 <= i < rest.len() && #[trigger] rest[i].pid == pid && entry_selected(name, rest[i])
                        && forall|k: int| 0 <= k < i ==> !entry_selected(name, #[trigger] rest[k]);
                assert(entries[i + 1] == rest[i]);
                assert forall|k: int| 0 <= k < i + 1 implies !entry_selected(name, #[trigger] entries[k]) by {
                    if k > 0 {
                        assert(entries[k] == rest[k - 1]);
                    }
                }
            } else {
                assert forall|k: int| 0 <= k < entries.len() implies !entry_selected(name, #[trigger] entries[k]) by {
                    if k > 0 {
                        assert(entries[k] == rest[k - 1]);
                    }
                }
            }
        }
    }
}

/// Normalising twice is normalising once.
pub proof fn lemma_normalized_idempotent(s: Seq<char>)
    ensures
        normalized(normalized(s)) == normalized(s),
    decreases s.len(),
{
    if s.len() > 0 {
        lemma_normalized_idempotent(s.drop_last());
        let r = normalized(s.drop_last());
        if is_ascii_alnum(s.last()) {
            let c = ascii_lower(s.last());
            assert(is_ascii_alnum(c));
            assert(ascii_lower(c) == c);
            assert(r.push(c).drop_last() =~= r);
        }
    }
}

/// Matching ignores case and everything but ASCII letters and digits: names
/// that normalise alike match alike.
pub proof fn lemma_match_ignores_spelling(
    candidate: Seq<char>,
    other_candidate: Seq<char>,
    proc_name: Seq<char>,
    other_name: Seq<char>,
    proc_basename: Option<Seq<char>>,
)
    requires
        normalized(candidate) == normalized(other_candidate),
        normalized(proc_name) == normalized(other_name),
    ensures
        candidate_matches(candidate, proc_name, proc_basename) == candidate_matches(
            other_candidate,
            other_name,
            proc_basename,
        ),
{
}

/// A process always matches its own name, once that name has an ASCII letter or digit.
pub proof fn lemma_name_matches_itself(name: Seq<char>, proc_basename: Option<Seq<char>>)
    requires
        normalized(name).len() > 0,
    ensures
        candidate_matches(name, name, proc_basename),
{
}

/// A normalised name holds only lower-case ASCII letters and digits.
pub proof fn lemma_normalized_chars(s: Seq<char>)
    ensures
        forall|i: int|
            0 <= i < normalized(s).len() ==> {
                let c = #[trigger] normalized(s)[i];
                ('0' <= c && c <= '9') || ('a' <= c && c <= 'z')
            },
        normalized(s).len() <= s.len(),
    decreases s.len(),
{
    if s.len() > 0 {
        lemma_normalized_chars(s.drop_last());
    }
}

} // verus!
