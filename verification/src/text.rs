//! Byte-level text matching on the output of external tools.

use vstd::prelude::*;
use vstd::string::StringSliceAdditionalSpecFns;

verus! {

/// The words with which the version-control tool reports that the local
/// branch lacks commits of the branch it tracks.
pub const BEHIND_MARKER: &'static str = "Your branch is behind 'origin/main'";

/// Whether `needle` occurs in `hay` starting at position `at`.
pub open spec fn occurs_at<T>(hay: Seq<T>, needle: Seq<T>, at: int) -> bool {
    &&& 0 <= at
    &&& at + needle.len() <= hay.len()
    &&& hay.subrange(at, at + needle.len()) == needle
}

/// Whether `needle` occurs somewhere in `hay` as a contiguous run.
pub open spec fn occurs_in<T>(hay: Seq<T>, needle: Seq<T>) -> bool {
    exists|at: int| occurs_at(hay, needle, at)
}

/// The marker as the bytes that the tool writes.
pub open spec fn behind_marker() -> Seq<u8> {
    BEHIND_MARKER.spec_bytes()
}

/// Whether a status report says that the local branch is behind its upstream.
pub open spec fn reports_behind(status: Seq<u8>) -> bool {
    occurs_in(status, behind_marker())
}

/// Compares `needle` with the bytes of `hay` that start at `at`. A needle
/// that does not fit between `at` and the end of `hay` does not occur there.
pub fn matches_at(hay: &[u8], needle: &[u8], at: usize) -> (found: bool)
    ensures
        found == occurs_at(hay@, needle@, at as int),
{
    let total: usize = hay.len();
    if at > total || needle.len() > total - at {
        return false;
    }
    let mut k: usize = 0;
    while k < needle.len()
        invariant
            k <= needle@.len(),
            at + needle@.len() <= hay@.len(),
            total == hay@.len(),
            forall|j: int| 0 <= j < k ==> hay@[at + j] == needle@[j],
        decreases needle@.len() - k,
    {
        if hay[at + k] != needle[k] {
            proof {
                let window = hay@.subrange(at as int, at + needle@.len());
                assert(window[k as int] == hay@[at + k]);
            }
            return false;
        }
        k = k + 1;
    }
    proof {
        assert(hay@.subrange(at as int, at + needle@.len()) =~= needle@);
    }
    true
}

/// Searches `hay` for `needle`, as a substring test does on text. The empty
/// needle occurs in every text.
pub fn contains_bytes(hay: &[u8], needle: &[u8]) -> (found: bool)
    ensures
        found == occurs_in(hay@, needle@),
{
    if needle.len() > hay.len() {
        return false;
    }
    let last: usize = hay.len() - needle.len();
    let mut at: usize = 0;
    while at < last
        invariant
            last + needle@.len() == hay@.len(),
            at <= last,
            forall|p: int| 0 <= p < at ==> !occurs_at(hay@, needle@, p),
        decreases last - at,
    {
        if matches_at(hay, needle, at) {
            return true;
        }
        at = at + 1;
    }
    matches_at(hay, needle, last)
}

/// Decides from the text of a status report whether the local branch is
/// strictly behind the branch it tracks.
pub fn is_behind_upstream(status: &[u8]) -> (behind: bool)
    ensures
        behind == reports_behind(status@),
{
    contains_bytes(status, BEHIND_MARKER.as_bytes())
}

} // verus!
