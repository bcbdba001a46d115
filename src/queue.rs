//! The materialization queue: values waiting for their assets to load, and
//! the handles of those already installed.

use std::collections::VecDeque;
use vstd::prelude::*;

verus! {

/// The entries of `w` whose readiness flag in `r` (same positions) equals
/// `ready`, in their order in `w`.
pub open spec fn entries_where<E>(w: Seq<E>, r: Seq<bool>, ready: bool) -> Seq<E>
    decreases w.len(),
{
    if w.len() == 0 {
        Seq::empty()
    } else {
        let earlier = entries_where(w.drop_last(), r, ready);
        if r[w.len() - 1] == ready {
            earlier.push(w.last())
        } else {
            earlier
        }
    }
}

/// The handles of a sequence of pending entries.
pub open spec fn handles_of<H, F>(w: Seq<(H, F)>) -> Seq<H> {
    w.map_values(|e: (H, F)| e.0)
}

/// The finalizers of a sequence of pending entries.
pub open spec fn finalizers_of<H, F>(w: Seq<(H, F)>) -> Seq<F> {
    w.map_values(|e: (H, F)| e.1)
}

/// What a queue holds: pending entries in the order they will be examined,
/// and the handles whose values have been installed, in the order they were.
pub struct QueueView<H, F> {
    pub waiting: Seq<(H, F)>,
    pub finished: Seq<H>,
}

impl<H, F> QueueView<H, F> {
    pub open spec fn empty() -> Self {
        QueueView { waiting: Seq::empty(), finished: Seq::empty() }
    }

    /// Nothing is left to materialize.
    pub open spec fn is_all_done(self) -> bool {
        self.waiting.len() == 0
    }

    pub open spec fn waiting_handles(self) -> Seq<H> {
        handles_of(self.waiting)
    }

    /// Every handle the queue knows of: the finished ones, then the waiting ones.
    pub open spec fn handles(self) -> Seq<H> {
        self.finished + self.waiting_handles()
    }

    /// No handle is tracked twice, in one collection or across both.
    pub open spec fn handles_distinct(self) -> bool {
        self.handles().no_duplicates()
    }

    /// No handle is both waiting and finished.
    pub open spec fn no_handle_in_both(self) -> bool {
        forall|h: H| !(#[trigger] self.finished.contains(h) && self.waiting_handles().contains(h))
    }

    /// The queue after a new pending entry is appended.
    pub open spec fn register(self, handle: H, insert: F) -> Self {
        QueueView { waiting: self.waiting.push((handle, insert)), finished: self.finished }
    }

    /// The entries a pass with readiness flags `r` finalizes, in order.
    pub open spec fn ready_entries(self, r: Seq<bool>) -> Seq<(H, F)> {
        entries_where(self.waiting, r, true)
    }

    /// The queue after one pass in which the entry at position `i` of
    /// `waiting` was found ready exactly when `r[i]`: the ready entries move
    /// to `finished` in order, the others stay in `waiting` in order.
    pub open spec fn pass(self, r: Seq<bool>) -> Self {
        QueueView {
            waiting: entries_where(self.waiting, r, false),
            finished: self.finished + handles_of(self.ready_entries(r)),
        }
    }

    /// The queue after passes with the readiness flags of `rs`, in order.
    pub open spec fn after_passes(self, rs: Seq<Seq<bool>>) -> Self
        decreases rs.len(),
    {
        if rs.len() == 0 {
            self
        } else {
            self.after_passes(rs.drop_last()).pass(rs.last())
        }
    }
}

/// Values waiting for their assets, with the finalizer that installs each
/// once its handle reports ready, and the handles already finalized.
pub struct ResourceHandles<H, F> {
    waiting: VecDeque<(H, F)>,
    finished: Vec<H>,
}

impl<H, F> View for ResourceHandles<H, F> {
    type V = QueueView<H, F>;

    closed spec fn view(&self) -> QueueView<H, F> {
        QueueView { waiting: self.waiting@, finished: self.finished@ }
    }
}

/// Examining one more entry of `w` (the one at position `i`) extends the
/// selection of the first `i` entries by that entry exactly when its flag
/// matches.
pub proof fn lemma_entries_where_extend<E>(w: Seq<E>, r: Seq<bool>, i: int, ready: bool)
    requires
        0 <= i < w.len(),
    ensures
        entries_where(w.subrange(0, i + 1), r, ready) == if r[i] == ready {
            entries_where(w.subrange(0, i), r, ready).push(w[i])
        } else {
            entries_where(w.subrange(0, i), r, ready)
        },
{
    assert(w.subrange(0, i + 1).drop_last() =~= w.subrange(0, i));
}

/// The selection reads only the flags at positions of `w`.
pub proof fn lemma_entries_where_same_flags<E>(w: Seq<E>, r1: Seq<bool>, r2: Seq<bool>, ready: bool)
    requires
        forall|i: int| 0 <= i < w.len() ==> r1[i] == r2[i],
    ensures
        entries_where(w, r1, ready) == entries_where(w, r2, ready),
    decreases w.len(),
{
    if w.len() > 0 {
        lemma_entries_where_same_flags(w.drop_last(), r1, r2, ready);
    }
}

impl<H, F> ResourceHandles<H, F> {
    /// An empty queue.
    pub fn new() -> (q: Self)
        ensures
            q@ == QueueView::<H, F>::empty(),
    {
        ResourceHandles { waiting: VecDeque::new(), finished: Vec::new() }
    }

    /// Appends a pending entry: `insert` will install the value of `handle`
    /// once the handle is ready. Never blocks, never rejects.
    pub fn register(&mut self, handle: H, insert: F)
        ensures
            final(self)@ == old(self)@.register(handle, insert),
    {
        self.waiting.push_back((handle, insert));
    }

    /// Whether no materialization is outstanding.
    pub fn is_all_done(&self) -> (r: bool)
        ensures
            r == self@.is_all_done(),
    {
        self.waiting.len() == 0
    }

    /// The number of entries still waiting.
    pub fn waiting_len(&self) -> (n: usize)
        ensures
            n == self@.waiting.len(),
    {
        self.waiting.len()
    }

    /// The number of handles already finalized.
    pub fn finished_len(&self) -> (n: usize)
        ensures
            n == self@.finished.len(),
    {
        self.finished.len()
    }

    /// The handle of the waiting entry at position `i`.
    pub fn waiting_handle(&self, i: usize) -> (h: &H)
        requires
            i < self@.waiting.len(),
        ensures
            *h == self@.waiting[i as int].0,
    {
        &self.waiting[i].0
    }

    /// The finalized handle at position `i`.
    pub fn finished_handle(&self, i: usize) -> (h: &H)
        requires
            i < self@.finished.len(),
        ensures
            *h == self@.finished[i as int],
    {
        &self.finished[i]
    }

    /// Takes the front entry off `waiting`. If `ready`, its handle is
    /// appended to `finished` and its finalizer handed back; otherwise the
    /// entry goes back to the tail of `waiting`.
    pub(crate) fn advance(&mut self, ready: bool) -> (out: Option<F>)
        requires
            old(self)@.waiting.len() > 0,
        ensures
            ready ==> final(self)@.waiting == old(self)@.waiting.drop_first()
                && final(self)@.finished == old(self)@.finished.push(old(self)@.waiting[0].0)
                && out == Some(old(self)@.waiting[0].1),
            !ready ==> final(self)@.waiting == old(self)@.waiting.drop_first().push(
                old(self)@.waiting[0],
            ) && final(self)@.finished == old(self)@.finished && out.is_none(),
    {
        let entry = self.waiting.pop_front();
        match entry {
            Some((handle, insert)) => {
                if ready {
                    self.finished.push(handle);
                    Some(insert)
                } else {
                    self.waiting.push_back((handle, insert));
                    None
                }
            },
            None => None,
        }
    }

    /// One pass over the entries waiting at the start of the call, in order,
    /// with `ready[i]` the readiness of the `i`-th: each is examined exactly
    /// once. The finalizers of the ready entries are handed back in the
    /// order their handles were appended to `finished`.
    pub fn poll_with(&mut self, ready: &Vec<bool>) -> (done: Vec<F>)
        requires
            ready@.len() == old(self)@.waiting.len(),
        ensures
            final(self)@ == old(self)@.pass(ready@),
            done@ == finalizers_of(old(self)@.ready_entries(ready@)),
    {
        let ghost w0 = self@.waiting;
        let ghost f0 = self@.finished;
        let ghost r = ready@;
        let n = self.waiting.len();
        let mut done: Vec<F> = Vec::new();
        let mut i: usize = 0;
        while i < n
            invariant
                n == w0.len(),
                r == ready@,
                r.len() == n,
                i <= n,
                self@.waiting == w0.subrange(i as int, n as int) + entries_where(
                    w0.subrange(0, i as int),
                    r,
                    false,
                ),
                self@.finished == f0 + handles_of(entries_where(w0.subrange(0, i as int), r, true)),
                done@ == finalizers_of(entries_where(w0.subrange(0, i as int), r, true)),
            decreases n - i,
        {
            proof {
                lemma_entries_where_extend(w0, r, i as int, true);
                lemma_entries_where_extend(w0, r, i as int, false);
            }
            let out = self.advance(ready[i]);
            match out {
                Some(insert) => {
                    done.push(insert);
                },
                None => {},
            }
            proof {
                let taken = entries_where(w0.subrange(0, i as int), r, true);
                assert(handles_of(taken.push(w0[i as int])) =~= handles_of(taken).push(w0[i as int].0));
                assert(finalizers_of(taken.push(w0[i as int])) =~= finalizers_of(taken).push(
                    w0[i as int].1,
                ));
                assert(self@.waiting =~= w0.subrange(i + 1, n as int) + entries_where(
                    w0.subrange(0, i + 1),
                    r,
                    false,
                ));
            }
            i = i + 1;
        }
        proof {
            assert(w0.subrange(0, n as int) =~= w0);
            assert(self@.waiting =~= entries_where(w0, r, false));
        }
        done
    }
}

impl<H, F> Default for ResourceHandles<H, F> {
    /// An empty queue.
    fn default() -> (q: Self)
        ensures
            q@ == QueueView::<H, F>::empty(),
    {
        Self::new()
    }
}

} // verus!
