//! Query combinators over the buffered input history.
//!
//! A query starts as a snapshot of the whole buffer and is narrowed by
//! combinators: by matching filter, by time window, by sequence. The two
//! terminal operations are `check`, a non-mutating existence test, and
//! `consume`, the same test that on success clears the source buffer so
//! that one gesture triggers at most once.

use vstd::prelude::*;

use crate::blocker::Blockable;
use crate::blocker::Blocker;
use crate::buffer::spec_mask_blocked;
use crate::buffer::InputBuffer;
use crate::input_frame::InputFrame;

verus! {

/// A value that can be matched against a buffered input frame.
pub trait InputLike {
    /// What it means for this value to match `frame`.
    spec fn spec_matches(&self, frame: InputFrame) -> bool;

    /// Checks whether this value matches `frame`.
    fn matches(&self, frame: &InputFrame) -> (r: bool)
        ensures
            r == self.spec_matches(*frame),
    ;
}

/// A snapshot query over an input buffer. `frames` is the set narrowed so
/// far, in buffer order (oldest first); `all` is the full history at query
/// creation and `blocker` the blocking mask then in force.
pub struct InputQuery {
    pub frames: Vec<InputFrame>,
    pub all: Vec<InputFrame>,
    pub blocker: Blocker,
}

/// True when some element of `filter` is blocked under the mask `b`.
pub open spec fn spec_any_blocked<T: InputLike + Blockable>(b: Blocker, filter: Seq<T>) -> bool {
    exists|i: int| 0 <= i < filter.len() && spec_mask_blocked(b, filter[i].spec_blocker())
}

/// True when the `k` frames of `frames` starting at `at` match `filter`
/// element for element.
pub open spec fn spec_window_matches<T: InputLike>(
    frames: Seq<InputFrame>,
    filter: Seq<T>,
    at: int,
) -> bool {
    forall|j: int| 0 <= j < filter.len() ==> filter[j].spec_matches(#[trigger] frames[at + j])
}

/// Extending a sequence by one element extends its filtration by that
/// element exactly when the element passes.
proof fn lemma_filter_push<A>(s: Seq<A>, x: A, pred: spec_fn(A) -> bool)
    ensures
        s.push(x).filter(pred) == if pred(x) {
            s.filter(pred).push(x)
        } else {
            s.filter(pred)
        },
{
    reveal(Seq::filter);
    assert(s.push(x).drop_last() =~= s);
}

impl InputQuery {
    /// True when the query has not failed: some frame is left.
    pub fn check(&self) -> (r: bool)
        ensures
            r == (self.frames@.len() > 0),
    {
        self.frames.len() > 0
    }

    /// `check`, and on success clears the source buffer, so that the
    /// gesture that satisfied the query cannot satisfy another.
    pub fn consume(&self, source: &mut InputBuffer) -> (r: bool)
        ensures
            r == (self.frames@.len() > 0),
            final(source).current_frame == old(source).current_frame,
            final(source).blocker == old(source).blocker,
            r ==> final(source).buffer@ =~= Seq::<InputFrame>::empty(),
            !r ==> final(source).buffer@ =~= old(source).buffer@,
    {
        let result = self.check();
        if result {
            source.clear();
        }
        result
    }

    /// The earliest frame still in the query, `None` when it has failed.
    pub fn check_recent(&self) -> (r: Option<InputFrame>)
        ensures
            self.frames@.len() > 0 ==> r == Some(self.frames@[0]),
            self.frames@.len() == 0 ==> r is None,
    {
        if self.frames.len() > 0 {
            Some(self.frames[0])
        } else {
            None
        }
    }

    /// `check_recent`, and on success clears the source buffer.
    pub fn consume_recent(&self, source: &mut InputBuffer) -> (r: Option<InputFrame>)
        ensures
            final(source).current_frame == old(source).current_frame,
            final(source).blocker == old(source).blocker,
            self.frames@.len() > 0 ==> r == Some(self.frames@[0]) && final(source).buffer@
                =~= Seq::<InputFrame>::empty(),
            self.frames@.len() == 0 ==> r is None && final(source).buffer@ =~= old(source).buffer@,
    {
        if self.frames.len() > 0 {
            let frame = self.frames[0];
            source.clear();
            Some(frame)
        } else {
            None
        }
    }

    /// Retains the frames created within `window_us` of the instant
    /// `now_us`, both in microseconds.
    pub fn within_timeframe(&mut self, now_us: u64, window_us: u64)
        ensures
            final(self).frames@ =~= old(self).frames@.filter(
                |f: InputFrame| f.instant + window_us >= now_us,
            ),
            final(self).all == old(self).all,
            final(self).blocker == old(self).blocker,
    {
        let ghost pred = |f: InputFrame| f.instant + window_us >= now_us;
        let mut kept: Vec<InputFrame> = Vec::new();
        let mut i: usize = 0;
        while i < self.frames.len()
            invariant
                i <= self.frames@.len(),
                kept@ == self.frames@.take(i as int).filter(pred),
                pred == (|f: InputFrame| f.instant + window_us >= now_us),
            decreases self.frames@.len() - i,
        {
            let f = self.frames[i];
            proof {
                lemma_filter_push(self.frames@.take(i as int), f, pred);
                assert(self.frames@.take(i + 1) =~= self.frames@.take(i as int).push(f));
            }
            if f.instant >= now_us || now_us - f.instant <= window_us {
                kept.push(f);
            }
            i = i + 1;
        }
        proof {
            assert(self.frames@.take(self.frames@.len() as int) =~= self.frames@);
        }
        self.frames = kept;
    }

    /// Retains the frames that `filter` matches; every frame goes when
    /// `filter` is blocked under the query's mask.
    pub fn contains<T: InputLike + Blockable + Copy>(&mut self, filter: T)
        ensures
            spec_mask_blocked(old(self).blocker, filter.spec_blocker()) ==> final(self).frames@
                =~= Seq::<InputFrame>::empty(),
            !spec_mask_blocked(old(self).blocker, filter.spec_blocker()) ==> final(self).frames@
                =~= old(self).frames@.filter(|f: InputFrame| filter.spec_matches(f)),
            final(self).all == old(self).all,
            final(self).blocker == old(self).blocker,
    {
        if self.blocker.overlaps(filter.to_blocker()) {
            self.frames = Vec::new();
            return ;
        }
        let ghost pred = |f: InputFrame| filter.spec_matches(f);
        let mut kept: Vec<InputFrame> = Vec::new();
        let mut i: usize = 0;
        while i < self.frames.len()
            invariant
                i <= self.frames@.len(),
                kept@ == self.frames@.take(i as int).filter(pred),
                pred == (|f: InputFrame| filter.spec_matches(f)),
            decreases self.frames@.len() - i,
        {
            let f = self.frames[i];
            proof {
                lemma_filter_push(self.frames@.take(i as int), f, pred);
                assert(self.frames@.take(i + 1) =~= self.frames@.take(i as int).push(f));
            }
            if filter.matches(&f) {
                kept.push(f);
            }
            i = i + 1;
        }
        proof {
            assert(self.frames@.take(self.frames@.len() as int) =~= self.frames@);
        }
        self.frames = kept;
    }

    /// Retains the frames matched by at least one element of `filter` that
    /// is not blocked under the query's mask.
    pub fn contains_any<T: InputLike + Blockable + Copy>(&mut self, filter: Vec<T>)
        ensures
            final(self).frames@ =~= old(self).frames@.filter(
                |f: InputFrame|
                    exists|k: int|
                        0 <= k < filter@.len() && !spec_mask_blocked(
                            old(self).blocker,
                            filter@[k].spec_blocker(),
                        ) && filter@[k].spec_matches(f),
            ),
            final(self).all == old(self).all,
            final(self).blocker == old(self).blocker,
    {
        let ghost pred = |f: InputFrame|
            exists|k: int|
                0 <= k < filter@.len() && !spec_mask_blocked(
                    self.blocker,
                    filter@[k].spec_blocker(),
                ) && filter@[k].spec_matches(f);
        let mut kept: Vec<InputFrame> = Vec::new();
        let mut i: usize = 0;
        while i < self.frames.len()
            invariant
                i <= self.frames@.len(),
                kept@ == self.frames@.take(i as int).filter(pred),
                pred == (|f: InputFrame|
                    exists|k: int|
                        0 <= k < filter@.len() && !spec_mask_blocked(
                            self.blocker,
                            filter@[k].spec_blocker(),
                        ) && filter@[k].spec_matches(f)),
                self.blocker == old(self).blocker,
                self.frames == old(self).frames,
            decreases self.frames@.len() - i,
        {
            let f = self.frames[i];
            proof {
                lemma_filter_push(self.frames@.take(i as int), f, pred);
                assert(self.frames@.take(i + 1) =~= self.frames@.take(i as int).push(f));
            }
            if Self::matches_any_unblocked(&filter, self.blocker, &f) {
                kept.push(f);
            }
            i = i + 1;
        }
        proof {
            assert(self.frames@.take(self.frames@.len() as int) =~= self.frames@);
        }
        self.frames = kept;
    }

    /// Whether some element of `inputs` that is not blocked under `mask`
    /// matches `frame`.
    fn matches_any_unblocked<T: InputLike + Blockable + Copy>(
        inputs: &Vec<T>,
        mask: Blocker,
        frame: &InputFrame,
    ) -> (r: bool)
        ensures
            r == exists|k: int|
                0 <= k < inputs@.len() && !spec_mask_blocked(mask, inputs@[k].spec_blocker())
                    && inputs@[k].spec_matches(*frame),
    {
        let mut i: usize = 0;
        while i < inputs.len()
            invariant
                i <= inputs@.len(),
                forall|k: int|
                    0 <= k < i ==> !(!spec_mask_blocked(mask, inputs@[k].spec_blocker())
                        && inputs@[k].spec_matches(*frame)),
            decreases inputs@.len() - i,
        {
            let candidate = inputs[i];
            if !mask.overlaps(candidate.to_blocker()) && candidate.matches(frame) {
                return true;
            }
            i = i + 1;
        }
        false
    }

    /// Retains the frames of every run that matches `filter` element for
    /// element; runs may not overlap. The query fails outright when
    /// `filter` is empty or any of its elements is blocked. Afterwards the
    /// query succeeds exactly when some window of the previous frames
    /// matched the whole filter.
    pub fn sequence<T: InputLike + Blockable + Copy>(&mut self, filter: Vec<T>)
        ensures
            filter@.len() == 0 || spec_any_blocked(old(self).blocker, filter@) ==> final(
                self).frames@ =~= Seq::<InputFrame>::empty(),
            filter@.len() > 0 && !spec_any_blocked(old(self).blocker, filter@) ==> ((final(
                self).frames@.len() > 0) == (exists|i: int|
                0 <= i <= old(self).frames@.len() - filter@.len() && spec_window_matches(
                    old(self).frames@,
                    filter@,
                    i,
                ))),
            final(self).all == old(self).all,
            final(self).blocker == old(self).blocker,
    {
        let k = filter.len();
        if filter.len() == 0 || Self::any_blocked(&filter, self.blocker) || self.frames.len() < k {
            self.frames = Vec::new();
            return ;
        }
        let mut kept: Vec<InputFrame> = Vec::new();
        let mut i: usize = 0;
        let ghost mut found = false;
        while i <= self.frames.len() - k
            invariant
                k == filter@.len(),
                1 <= k <= self.frames@.len(),
                i <= self.frames@.len(),
                found == (kept@.len() > 0),
                found ==> exists|p: int|
                    0 <= p <= self.frames@.len() - k && spec_window_matches(
                        self.frames@,
                        filter@,
                        p,
                    ),
                !found ==> forall|p: int|
                    0 <= p < i ==> !spec_window_matches(self.frames@, filter@, p),
                self.frames == old(self).frames,
                self.blocker == old(self).blocker,
            decreases self.frames@.len() - i,
        {
            if Self::window_matches_at(&self.frames, &filter, i) {
                proof {
                    found = true;
                }
                let ghost kept0 = kept@;
                let n: usize = self.frames.len();
                let mut j: usize = 0;
                while j < k
                    invariant
                        k == filter@.len(),
                        j <= k,
                        n == self.frames@.len(),
                        i + k <= n,
                        kept@.len() == kept0.len() + j,
                    decreases k - j,
                {
                    kept.push(self.frames[i + j]);
                    j = j + 1;
                }
                i = i + k;
            } else {
                i = i + 1;
            }
        }
        self.frames = kept;
    }

    /// Whether any element of `filter` is blocked under `mask`.
    fn any_blocked<T: InputLike + Blockable + Copy>(filter: &Vec<T>, mask: Blocker) -> (r: bool)
        ensures
            r == spec_any_blocked(mask, filter@),
    {
        let mut i: usize = 0;
        while i < filter.len()
            invariant
                i <= filter@.len(),
                forall|k: int| 0 <= k < i ==> !spec_mask_blocked(mask, filter@[k].spec_blocker()),
            decreases filter@.len() - i,
        {
            let candidate = filter[i];
            if mask.overlaps(candidate.to_blocker()) {
                return true;
            }
            i = i + 1;
        }
        false
    }

    /// Whether the `filter@.len()` frames starting at `at` match `filter`
    /// element for element.
    fn window_matches_at<T: InputLike + Copy>(
        frames: &Vec<InputFrame>,
        filter: &Vec<T>,
        at: usize,
    ) -> (r: bool)
        requires
            at + filter@.len() <= frames@.len(),
        ensures
            r == spec_window_matches(frames@, filter@, at as int),
    {
        let n: usize = frames.len();
        let mut j: usize = 0;
        while j < filter.len()
            invariant
                j <= filter@.len(),
                n == frames@.len(),
                at + filter@.len() <= n,
                forall|q: int| 0 <= q < j ==> filter@[q].spec_matches(#[trigger] frames@[at + q]),
            decreases filter@.len() - j,
        {
            let candidate = filter[j];
            if !candidate.matches(&frames[at + j]) {
                return false;
            }
            j = j + 1;
        }
        true
    }

    /// Starts the chained query over: on success the frame set becomes the
    /// whole history again; a failed query stays failed.
    pub fn and(&mut self)
        ensures
            old(self).frames@.len() > 0 ==> final(self).frames@ =~= old(self).all@,
            old(self).frames@.len() == 0 ==> final(self).frames@ =~= old(self).frames@,
            final(self).all == old(self).all,
            final(self).blocker == old(self).blocker,
    {
        if self.frames.len() > 0 {
            self.frames = Self::copy_frames(&self.all);
        }
    }

    /// Chains onto the history after the earliest remaining frame: the new
    /// frame set holds the frames created strictly later, so a following
    /// match happened after the current one. A failed query stays failed.
    pub fn before(&mut self)
        ensures
            old(self).frames@.len() == 0 ==> final(self).frames@ =~= old(self).frames@,
            old(self).frames@.len() > 0 ==> final(self).frames@ =~= old(self).all@.filter(
                |f: InputFrame| f.instant > old(self).frames@[0].instant,
            ),
            final(self).all == old(self).all,
            final(self).blocker == old(self).blocker,
    {
        if self.frames.len() == 0 {
            return ;
        }
        let pivot = self.frames[0].instant;
        let ghost pred = |f: InputFrame| f.instant > pivot;
        let mut kept: Vec<InputFrame> = Vec::new();
        let mut i: usize = 0;
        while i < self.all.len()
            invariant
                i <= self.all@.len(),
                kept@ == self.all@.take(i as int).filter(pred),
                pred == (|f: InputFrame| f.instant > pivot),
            decreases self.all@.len() - i,
        {
            let f = self.all[i];
            proof {
                lemma_filter_push(self.all@.take(i as int), f, pred);
                assert(self.all@.take(i + 1) =~= self.all@.take(i as int).push(f));
            }
            if f.instant > pivot {
                kept.push(f);
            }
            i = i + 1;
        }
        proof {
            assert(self.all@.take(self.all@.len() as int) =~= self.all@);
        }
        self.frames = kept;
    }

    /// Chains onto the history before the latest remaining frame: the new
    /// frame set holds the frames created strictly earlier, so a following
    /// match happened before the current one. A failed query stays failed.
    pub fn after(&mut self)
        ensures
            old(self).frames@.len() == 0 ==> final(self).frames@ =~= old(self).frames@,
            old(self).frames@.len() > 0 ==> final(self).frames@ =~= old(self).all@.filter(
                |f: InputFrame| f.instant < old(self).frames@[old(self).frames@.len() - 1].instant,
            ),
            final(self).all == old(self).all,
            final(self).blocker == old(self).blocker,
    {
        if self.frames.len() == 0 {
            return ;
        }
        let pivot = self.frames[self.frames.len() - 1].instant;
        let ghost pred = |f: InputFrame| f.instant < pivot;
        let mut kept: Vec<InputFrame> = Vec::new();
        let mut i: usize = 0;
        while i < self.all.len()
            invariant
                i <= self.all@.len(),
                kept@ == self.all@.take(i as int).filter(pred),
                pred == (|f: InputFrame| f.instant < pivot),
            decreases self.all@.len() - i,
        {
            let f = self.all[i];
            proof {
                lemma_filter_push(self.all@.take(i as int), f, pred);
                assert(self.all@.take(i + 1) =~= self.all@.take(i as int).push(f));
            }
            if f.instant < pivot {
                kept.push(f);
            }
            i = i + 1;
        }
        proof {
            assert(self.all@.take(self.all@.len() as int) =~= self.all@);
        }
        self.frames = kept;
    }

    /// An element-for-element copy of `v`.
    pub(crate) fn copy_frames(v: &Vec<InputFrame>) -> (r: Vec<InputFrame>)
        ensures
            r@ =~= v@,
    {
        let mut out: Vec<InputFrame> = Vec::new();
        let mut i: usize = 0;
        while i < v.len()
            invariant
                i <= v@.len(),
                out@ =~= v@.take(i as int),
            decreases v@.len() - i,
        {
            out.push(v[i]);
            i = i + 1;
        }
        proof {
            assert(v@.take(v@.len() as int) =~= v@);
        }
        out
    }
}

} // verus!
