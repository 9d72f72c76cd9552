//! The decisions of the device layer: which entries of the stable
//! device directory are monitored, and what one non-blocking read of a
//! device means for this tick's activity flag. The reads themselves are
//! raw file-descriptor I/O and live with the caller.

use vstd::prelude::*;

verus! {

/// The size of one kernel input-event record; a successful device read
/// yields whole records, never a partial one.
pub const INPUT_EVENT_SIZE: usize = 24;

/// `pat` occurs in `s` starting at index `i`.
pub open spec fn matches_at(s: Seq<char>, pat: Seq<char>, i: int) -> bool {
    0 <= i && i + pat.len() <= s.len() && s.subrange(i, i + pat.len()) == pat
}

/// `pat` occurs somewhere in `s`.
pub open spec fn contains_pat(s: Seq<char>, pat: Seq<char>) -> bool {
    exists|i: int| matches_at(s, pat, i)
}

/// A device entry is monitored when its path names the keyboard class,
/// or the pointer class while mouse tracking is on.
pub open spec fn spec_is_monitored(path: Seq<char>, track_mouse: bool) -> bool {
    contains_pat(path, "kbd"@) || (track_mouse && contains_pat(path, "mouse"@))
}

/// `pat` compared character by character against `s` at offset `i`.
pub(crate) fn matches_prefix_at(s: &str, pat: &str, i: usize) -> (b: bool)
    requires
        i + pat@.len() <= s@.len(),
        s@.len() <= usize::MAX,
    ensures
        b == matches_at(s@, pat@, i as int),
{
    let m = pat.unicode_len();
    let mut j: usize = 0;
    while j < m
        invariant
            j <= m,
            m == pat@.len(),
            i + m <= s@.len(),
            s@.len() <= usize::MAX,
            forall|k: int| 0 <= k < j ==> s@[i + k] == pat@[k],
        decreases m - j,
    {
        if s.get_char(i + j) != pat.get_char(j) {
            proof {
                if matches_at(s@, pat@, i as int) {
                    assert(s@.subrange(i as int, i + pat@.len()) == pat@);
                    assert(s@.subrange(i as int, i + pat@.len())[j as int] == s@[i + j]);
                }
            }
            return false;
        }
        j += 1;
    }
    proof {
        assert(s@.subrange(i as int, i + pat@.len()) =~= pat@);
    }
    true
}

/// Substring search, the filter of device discovery.
pub fn contains_marker(s: &str, pat: &str) -> (b: bool)
    ensures
        b == contains_pat(s@, pat@),
{
    let n = s.unicode_len();
    let m = pat.unicode_len();
    if m > n {
        return false;
    }
    let mut i: usize = 0;
    loop
        invariant
            m <= n,
            n == s@.len(),
            m == pat@.len(),
            i <= n - m,
            forall|k: int| 0 <= k < i ==> !matches_at(s@, pat@, k),
        decreases n - m - i,
    {
        if matches_prefix_at(s, pat, i) {
            return true;
        }
        if i >= n - m {
            proof {
                assert forall|k: int| !matches_at(s@, pat@, k) by {
                    if 0 <= k && k + pat@.len() <= s@.len() {
                        assert(k <= i);
                    }
                }
            }
            return false;
        }
        i += 1;
    }
}

/// Whether a directory entry's path selects it for monitoring: it must
/// name the keyboard marker, or the pointer marker when `track_mouse`.
pub fn is_monitored_path(path: &str, track_mouse: bool) -> (b: bool)
    ensures
        b == spec_is_monitored(path@, track_mouse),
{
    contains_marker(path, "kbd") || (track_mouse && contains_marker(path, "mouse"))
}

/// How the poll loop classifies one non-blocking read: its return
/// count, and whether a failure was the would-block indication.
#[derive(Clone, Copy, PartialEq, Eq, Structural, Debug)]
pub enum ReadClass {
    /// At least one byte arrived: device activity.
    Activity,
    /// The read would have blocked: nothing pending, not activity.
    WouldBlock,
    /// The read failed otherwise: logged and treated as no activity;
    /// the handle stays open and is retried next tick.
    ReadError,
    /// The read returned no bytes at all: treated as no activity.
    NoBytes,
}

/// The classification of a read that returned `n` (negative on
/// failure), where `would_block` says whether a failure was the
/// would-block indication.
pub open spec fn spec_classify_read(n: i64, would_block: bool) -> ReadClass {
    if n > 0 {
        ReadClass::Activity
    } else if n < 0 {
        if would_block {
            ReadClass::WouldBlock
        } else {
            ReadClass::ReadError
        }
    } else {
        ReadClass::NoBytes
    }
}

/// Classify one read: activity exactly when it returned bytes; every
/// failure, would-block or not, counts as silence for this tick.
pub fn classify_read(n: i64, would_block: bool) -> (c: ReadClass)
    ensures
        c == spec_classify_read(n, would_block),
        (c is Activity) <==> n > 0,
{
    if n > 0 {
        ReadClass::Activity
    } else if n < 0 {
        if would_block {
            ReadClass::WouldBlock
        } else {
            ReadClass::ReadError
        }
    } else {
        ReadClass::NoBytes
    }
}

} // verus!
