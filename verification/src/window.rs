//! Backtrace windowing: given the full frame sequence in innermost-call-first
//! order, computes the contiguous sub-range that excludes panic-machinery
//! frames at the top and runtime-bootstrap frames at the bottom, then strips
//! one trailing trampoline frame.
use vstd::prelude::*;

use crate::frame::{
    Frame, FrameView, spec_is_call_once, spec_is_post_panic_code, spec_is_runtime_init_code,
};

verus! {

/// The views of a sequence of frames.
pub open spec fn frames_view(frames: Seq<Frame>) -> Seq<FrameView> {
    Seq::new(frames.len(), |i: int| frames[i]@)
}

/// One past the index of the last post-panic frame, scanning from the
/// innermost call; 0 when no frame matches.
pub open spec fn spec_top_cutoff(frames: Seq<FrameView>) -> int
    decreases frames.len(),
{
    if frames.len() == 0 {
        0
    } else if spec_is_post_panic_code(frames.last()) {
        frames.len() as int
    } else {
        spec_top_cutoff(frames.drop_last())
    }
}

/// The index of the first runtime-bootstrap frame, scanning from the
/// innermost call; the length when no frame matches.  When the very first
/// frame matches this is 0 and the window comes out empty.
pub open spec fn spec_bottom_cutoff(frames: Seq<FrameView>) -> int
    decreases frames.len(),
{
    if frames.len() == 0 {
        0
    } else if spec_is_runtime_init_code(frames[0]) {
        0
    } else {
        1 + spec_bottom_cutoff(frames.subrange(1, frames.len() as int))
    }
}

/// The window `[top_cutoff, bottom_cutoff)`, with an empty window (clamped
/// at the top cutoff) when the bottom cutoff does not reach past it.
pub open spec fn spec_raw_window(frames: Seq<FrameView>) -> (int, int) {
    let lo = spec_top_cutoff(frames);
    let b = spec_bottom_cutoff(frames);
    (lo, if b < lo {
        lo
    } else {
        b
    })
}

/// The raw window with its outermost frame dropped when that frame is a
/// call-once trampoline.
pub open spec fn spec_window(frames: Seq<FrameView>) -> (int, int) {
    let w = spec_raw_window(frames);
    if w.1 > w.0 && spec_is_call_once(frames[w.1 - 1]) {
        (w.0, w.1 - 1)
    } else {
        w
    }
}

pub proof fn lemma_top_cutoff_le_len(s: Seq<FrameView>)
    ensures
        0 <= spec_top_cutoff(s) <= s.len(),
    decreases s.len(),
{
    if s.len() != 0 && !spec_is_post_panic_code(s.last()) {
        lemma_top_cutoff_le_len(s.drop_last());
    }
}

pub proof fn lemma_bottom_cutoff_bounds(s: Seq<FrameView>)
    ensures
        0 <= spec_bottom_cutoff(s) <= s.len(),
    decreases s.len(),
{
    if s.len() != 0 && !spec_is_runtime_init_code(s[0]) {
        lemma_bottom_cutoff_bounds(s.subrange(1, s.len() as int));
    }
}

proof fn lemma_top_cutoff_found(s: Seq<FrameView>, k: int)
    requires
        0 <= k < s.len(),
        spec_is_post_panic_code(s[k]),
        forall|j: int| k < j < s.len() ==> !spec_is_post_panic_code(s[j]),
    ensures
        spec_top_cutoff(s) == k + 1,
    decreases s.len(),
{
    if k == s.len() - 1 {
    } else {
        assert(!spec_is_post_panic_code(s.last()));
        lemma_top_cutoff_found(s.drop_last(), k);
    }
}

proof fn lemma_top_cutoff_none(s: Seq<FrameView>)
    requires
        forall|j: int| 0 <= j < s.len() ==> !spec_is_post_panic_code(s[j]),
    ensures
        spec_top_cutoff(s) == 0,
    decreases s.len(),
{
    if s.len() != 0 {
        lemma_top_cutoff_none(s.drop_last());
    }
}

proof fn lemma_bottom_cutoff_found(s: Seq<FrameView>, k: int)
    requires
        0 <= k < s.len(),
        spec_is_runtime_init_code(s[k]),
        forall|j: int| 0 <= j < k ==> !spec_is_runtime_init_code(s[j]),
    ensures
        spec_bottom_cutoff(s) == k,
    decreases s.len(),
{
    if k == 0 {
    } else {
        assert(!spec_is_runtime_init_code(s[0]));
        let tail = s.subrange(1, s.len() as int);
        assert(tail[k - 1] == s[k]);
        assert(forall|j: int| 0 <= j < k - 1 ==> tail[j] == s[j + 1]);
        lemma_bottom_cutoff_found(tail, k - 1);
    }
}

proof fn lemma_bottom_cutoff_none(s: Seq<FrameView>)
    requires
        forall|j: int| 0 <= j < s.len() ==> !spec_is_runtime_init_code(s[j]),
    ensures
        spec_bottom_cutoff(s) == s.len(),
    decreases s.len(),
{
    if s.len() != 0 {
        let tail = s.subrange(1, s.len() as int);
        assert(forall|j: int| 0 <= j < tail.len() ==> tail[j] == s[j + 1]);
        lemma_bottom_cutoff_none(tail);
    }
}

/// Every frame at or past the top cutoff is free of panic machinery.
pub proof fn lemma_top_cutoff_clean(s: Seq<FrameView>)
    ensures
        forall|j: int|
            spec_top_cutoff(s) <= j < s.len() ==> !spec_is_post_panic_code(s[j]),
    decreases s.len(),
{
    if s.len() != 0 && !spec_is_post_panic_code(s.last()) {
        lemma_top_cutoff_clean(s.drop_last());
        lemma_top_cutoff_le_len(s.drop_last());
        assert forall|j: int|
            spec_top_cutoff(s) <= j < s.len() implies !spec_is_post_panic_code(s[j]) by {
            if j < s.len() - 1 {
                assert(s.drop_last()[j] == s[j]);
            }
        }
    }
}

/// Every frame before the bottom cutoff is free of runtime bootstrap.
pub proof fn lemma_bottom_cutoff_clean(s: Seq<FrameView>)
    ensures
        forall|j: int|
            0 <= j < spec_bottom_cutoff(s) && j < s.len() ==> !spec_is_runtime_init_code(s[j]),
    decreases s.len(),
{
    if s.len() != 0 && !spec_is_runtime_init_code(s[0]) {
        let tail = s.subrange(1, s.len() as int);
        lemma_bottom_cutoff_clean(tail);
        lemma_bottom_cutoff_bounds(tail);
        assert forall|j: int|
            0 <= j < spec_bottom_cutoff(s) && j < s.len() implies !spec_is_runtime_init_code(
            s[j],
        ) by {
            if j >= 1 {
                assert(tail[j - 1] == s[j]);
            }
        }
    }
}

/// The window never contains a post-panic or a runtime-bootstrap frame.
pub proof fn lemma_window_clean(s: Seq<FrameView>)
    ensures
        forall|j: int|
            spec_window(s).0 <= j < spec_window(s).1 ==> !spec_is_post_panic_code(s[j])
                && !spec_is_runtime_init_code(s[j]),
{
    lemma_top_cutoff_clean(s);
    lemma_bottom_cutoff_clean(s);
    lemma_top_cutoff_le_len(s);
    lemma_bottom_cutoff_bounds(s);
}

/// Windowing is idempotent on its own output: a frame sequence with no
/// post-panic and no runtime-bootstrap frames left, and whose outermost
/// frame is not a call-once trampoline, windows to itself unchanged.
pub proof fn lemma_window_idempotent(s: Seq<FrameView>)
    requires
        forall|j: int| 0 <= j < s.len() ==> !spec_is_post_panic_code(s[j]),
        forall|j: int| 0 <= j < s.len() ==> !spec_is_runtime_init_code(s[j]),
        s.len() > 0 ==> !spec_is_call_once(s.last()),
    ensures
        spec_window(s) == (0int, s.len() as int),
{
    lemma_top_cutoff_none(s);
    lemma_bottom_cutoff_none(s);
}

/// Re-running the windowing algorithm on an already-windowed, already
/// trimmed slice yields that slice unchanged, provided the trimmed slice
/// does not itself end in another call-once trampoline.
pub proof fn lemma_window_of_window(s: Seq<FrameView>)
    requires
        spec_window(s).1 > spec_window(s).0 ==> !spec_is_call_once(s[spec_window(s).1 - 1]),
    ensures
        spec_window(s.subrange(spec_window(s).0, spec_window(s).1)) == (
            0int,
            spec_window(s).1 - spec_window(s).0,
        ),
{
    let w = spec_window(s);
    lemma_window_clean(s);
    lemma_top_cutoff_le_len(s);
    lemma_bottom_cutoff_bounds(s);
    let sub = s.subrange(w.0, w.1);
    assert(forall|j: int| 0 <= j < sub.len() ==> sub[j] == s[w.0 + j]);
    lemma_window_idempotent(sub);
}

/// The outermost frame of the raw window is excluded from the final window
/// exactly when it is a call-once trampoline; every other frame of the raw
/// window is kept.
pub proof fn lemma_call_once_dropped(s: Seq<FrameView>)
    ensures
        ({
            let w = spec_raw_window(s);
            &&& (w.1 > w.0 && spec_is_call_once(s[w.1 - 1])) ==> spec_window(s) == (
                w.0,
                w.1 - 1,
            )
            &&& !(w.1 > w.0 && spec_is_call_once(s[w.1 - 1])) ==> spec_window(s) == w
        }),
{
}

fn top_cutoff_of(frames: &Vec<Frame>) -> (r: usize)
    ensures
        r as int == spec_top_cutoff(frames_view(frames@)),
        r <= frames@.len(),
{
    let ghost s = frames_view(frames@);
    let n = frames.len();
    let mut i: usize = n;
    while i > 0
        invariant
            i <= n,
            n == frames@.len(),
            s == frames_view(frames@),
            forall|j: int| i <= j < n ==> !spec_is_post_panic_code(s[j]),
        decreases i,
    {
        i -= 1;
        if frames[i].is_post_panic_code() {
            proof {
                lemma_top_cutoff_found(s, i as int);
            }
            return i + 1;
        }
    }
    proof {
        lemma_top_cutoff_none(s);
    }
    0
}

/// Returns whether some frame is runtime-bootstrap code and, if so, the
/// index of the first one.
fn first_runtime_init(frames: &Vec<Frame>) -> (r: (bool, usize))
    ensures
        r.0 ==> r.1 < frames@.len() && spec_bottom_cutoff(frames_view(frames@)) == r.1,
        !r.0 ==> spec_bottom_cutoff(frames_view(frames@)) == frames@.len(),
{
    let ghost s = frames_view(frames@);
    let n = frames.len();
    let mut i: usize = 0;
    while i < n
        invariant
            i <= n,
            n == frames@.len(),
            s == frames_view(frames@),
            forall|j: int| 0 <= j < i ==> !spec_is_runtime_init_code(s[j]),
        decreases n - i,
    {
        if frames[i].is_runtime_init_code() {
            proof {
                lemma_bottom_cutoff_found(s, i as int);
            }
            return (true, i);
        }
        i += 1;
    }
    proof {
        lemma_bottom_cutoff_none(s);
    }
    (false, 0)
}

/// Computes the final window over `frames` as a pair of bounds `(lo, hi)`:
/// the frames judged relevant to the fault are exactly those at the indices
/// `lo <= i < hi`, still in innermost-call-first order.
pub fn compute_window(frames: &Vec<Frame>) -> (r: (usize, usize))
    ensures
        (r.0 as int, r.1 as int) == spec_window(frames_view(frames@)),
        r.0 <= r.1 <= frames@.len(),
{
    let ghost s = frames_view(frames@);
    proof {
        lemma_top_cutoff_le_len(s);
        lemma_bottom_cutoff_bounds(s);
    }
    let n = frames.len();
    let lo = top_cutoff_of(frames);
    let (found, pos) = first_runtime_init(frames);
    let hi0: usize = if found {
        if pos > lo {
            pos
        } else {
            lo
        }
    } else {
        n
    };
    assert((lo as int, hi0 as int) == spec_raw_window(s));
    let hi: usize = if hi0 > lo {
        if frames[hi0 - 1].is_call_once() {
            hi0 - 1
        } else {
            hi0
        }
    } else {
        hi0
    };
    (lo, hi)
}

} // verus!
