//! What holds of every pass over the queue, and of every sequence of passes.

use crate::queue::{entries_where, handles_of, QueueView};
use vstd::prelude::*;
use vstd::seq_lib::lemma_multiset_commutative;

verus! {

broadcast use vstd::seq_lib::group_to_multiset_ensures;

/// How many of the first `n` flags of `r` equal `ready`.
pub open spec fn number_with(r: Seq<bool>, ready: bool, n: int) -> nat
    decreases n,
{
    if n <= 0 {
        0
    } else {
        number_with(r, ready, n - 1) + if r[n - 1] == ready {
            1nat
        } else {
            0nat
        }
    }
}

proof fn lemma_entries_where_len<E>(w: Seq<E>, r: Seq<bool>, ready: bool)
    ensures
        entries_where(w, r, ready).len() == number_with(r, ready, w.len() as int),
    decreases w.len(),
{
    if w.len() > 0 {
        lemma_entries_where_len(w.drop_last(), r, ready);
    }
}

proof fn lemma_number_with_grows(r: Seq<bool>, ready: bool, i: int, j: int)
    requires
        0 <= i < j,
        r[i] == ready,
    ensures
        number_with(r, ready, i) < number_with(r, ready, j),
    decreases j,
{
    if j > i + 1 {
        lemma_number_with_grows(r, ready, i, j - 1);
    }
}

/// An entry with the wanted flag stands in the selection at the position
/// given by the number of such flags before it.
proof fn lemma_entries_where_index<E>(w: Seq<E>, r: Seq<bool>, ready: bool, i: int)
    requires
        0 <= i < w.len(),
        r[i] == ready,
    ensures
        number_with(r, ready, i) < entries_where(w, r, ready).len(),
        entries_where(w, r, ready)[number_with(r, ready, i) as int] == w[i],
    decreases w.len(),
{
    let n = w.len() as int;
    lemma_entries_where_len(w.drop_last(), r, ready);
    if i < n - 1 {
        lemma_entries_where_index(w.drop_last(), r, ready, i);
    }
}

proof fn lemma_entries_where_contains<E>(w: Seq<E>, r: Seq<bool>, ready: bool, x: E)
    requires
        entries_where(w, r, ready).contains(x),
    ensures
        w.contains(x),
    decreases w.len(),
{
    let n = w.len() as int;
    if n > 0 {
        let earlier = entries_where(w.drop_last(), r, ready);
        if earlier.contains(x) {
            lemma_entries_where_contains(w.drop_last(), r, ready, x);
            let j = choose|j: int| 0 <= j < n - 1 && w.drop_last()[j] == x;
            assert(w[j] == x);
        } else {
            assert(w[n - 1] == x);
        }
    }
}

proof fn lemma_entries_where_all<E>(w: Seq<E>, r: Seq<bool>)
    requires
        forall|i: int| 0 <= i < w.len() ==> r[i],
    ensures
        entries_where(w, r, true) == w,
        entries_where(w, r, false) == Seq::<E>::empty(),
    decreases w.len(),
{
    if w.len() > 0 {
        lemma_entries_where_all(w.drop_last(), r);
        assert(w.drop_last().push(w.last()) =~= w);
    }
}

proof fn lemma_handles_of_entries_where<H, F>(w: Seq<(H, F)>, r: Seq<bool>, ready: bool)
    ensures
        handles_of(entries_where(w, r, ready)) == entries_where(handles_of(w), r, ready),
    decreases w.len(),
{
    if w.len() > 0 {
        lemma_handles_of_entries_where(w.drop_last(), r, ready);
        let earlier = entries_where(w.drop_last(), r, ready);
        assert(handles_of(w).drop_last() =~= handles_of(w.drop_last()));
        assert(handles_of(earlier.push(w.last())) =~= handles_of(earlier).push(w.last().0));
    }
}

/// The ready and the not-ready entries together are the entries, each once.
proof fn lemma_entries_where_partition<E>(w: Seq<E>, r: Seq<bool>)
    ensures
        (entries_where(w, r, true) + entries_where(w, r, false)).to_multiset() =~= w.to_multiset(),
    decreases w.len(),
{
    if w.len() > 0 {
        let x = w.last();
        let t = entries_where(w.drop_last(), r, true);
        let k = entries_where(w.drop_last(), r, false);
        lemma_entries_where_partition(w.drop_last(), r);
        assert(w.drop_last().push(x) =~= w);
        lemma_multiset_commutative(t, k);
        lemma_multiset_commutative(t.push(x), k);
        lemma_multiset_commutative(t, k.push(x));
    }
}

/// A pass rearranges the handles the queue tracks and never drops or adds
/// one: every entry that leaves `waiting` either returns to it or has its
/// handle appended to `finished`.
pub proof fn lemma_pass_keeps_handles<H, F>(q: QueueView<H, F>, r: Seq<bool>)
    ensures
        q.pass(r).handles().to_multiset() =~= q.handles().to_multiset(),
{
    let wh = q.waiting_handles();
    let t = entries_where(wh, r, true);
    let k = entries_where(wh, r, false);
    lemma_handles_of_entries_where(q.waiting, r, true);
    lemma_handles_of_entries_where(q.waiting, r, false);
    lemma_entries_where_partition(wh, r);
    assert(q.pass(r).handles() =~= q.finished + (t + k));
    lemma_multiset_commutative(q.finished, t + k);
    lemma_multiset_commutative(q.finished, wh);
}

/// Any number of passes keeps the tracked handles, rearranged.
pub proof fn lemma_passes_keep_handles<H, F>(q: QueueView<H, F>, rs: Seq<Seq<bool>>)
    ensures
        q.after_passes(rs).handles().to_multiset() =~= q.handles().to_multiset(),
    decreases rs.len(),
{
    if rs.len() > 0 {
        lemma_passes_keep_handles(q, rs.drop_last());
        lemma_pass_keeps_handles(q.after_passes(rs.drop_last()), rs.last());
    }
}

/// Once every waiting handle reports ready, the pass finalizes every
/// waiting entry in order and leaves nothing outstanding.
pub proof fn lemma_all_ready_finishes_all<H, F>(q: QueueView<H, F>, r: Seq<bool>)
    requires
        r.len() == q.waiting.len(),
        forall|i: int| 0 <= i < r.len() ==> r[i],
    ensures
        q.ready_entries(r) == q.waiting,
        q.pass(r).is_all_done(),
        q.pass(r).finished == q.handles(),
{
    lemma_entries_where_all(q.waiting, r);
}

/// Whatever the passes before, a pass in which every waiting handle is ready
/// leaves nothing outstanding, and then every handle the queue tracked at
/// the start is finished.
pub proof fn lemma_polls_until_all_ready_finish_all<H, F>(q: QueueView<H, F>, rs: Seq<Seq<bool>>)
    requires
        rs.len() > 0,
        rs.last().len() == q.after_passes(rs.drop_last()).waiting.len(),
        forall|i: int| 0 <= i < rs.last().len() ==> rs.last()[i],
    ensures
        q.after_passes(rs).is_all_done(),
        q.after_passes(rs).finished.to_multiset() =~= q.handles().to_multiset(),
{
    let p = q.after_passes(rs.drop_last());
    lemma_passes_keep_handles(q, rs.drop_last());
    lemma_all_ready_finishes_all(p, rs.last());
}

proof fn lemma_distinct_from_multiset<A>(a: Seq<A>, b: Seq<A>)
    requires
        a.no_duplicates(),
        a.to_multiset() =~= b.to_multiset(),
    ensures
        b.no_duplicates(),
{
    a.lemma_multiset_has_no_duplicates();
    b.lemma_multiset_has_no_duplicates_conv();
}

/// Distinct handles are never both waiting and finished.
pub proof fn lemma_distinct_no_handle_in_both<H, F>(q: QueueView<H, F>)
    requires
        q.handles_distinct(),
    ensures
        q.no_handle_in_both(),
{
    let f = q.finished;
    let wh = q.waiting_handles();
    assert forall|h: H| !(#[trigger] f.contains(h) && wh.contains(h)) by {
        if f.contains(h) && wh.contains(h) {
            let i = choose|i: int| 0 <= i < f.len() && f[i] == h;
            let j = choose|j: int| 0 <= j < wh.len() && wh[j] == h;
            assert(q.handles()[i] == q.handles()[f.len() + j]);
        }
    }
}

/// A pass keeps the tracked handles distinct, so no handle is ever both
/// waiting and finished, nor twice in one of them.
pub proof fn lemma_pass_keeps_handles_distinct<H, F>(q: QueueView<H, F>, r: Seq<bool>)
    requires
        q.handles_distinct(),
    ensures
        q.pass(r).handles_distinct(),
        q.pass(r).no_handle_in_both(),
{
    lemma_pass_keeps_handles(q, r);
    lemma_distinct_from_multiset(q.handles(), q.pass(r).handles());
    lemma_distinct_no_handle_in_both(q.pass(r));
}

/// Registering a handle the queue does not track keeps the tracked handles
/// distinct.
pub proof fn lemma_register_keeps_handles_distinct<H, F>(q: QueueView<H, F>, handle: H, insert: F)
    requires
        q.handles_distinct(),
        !q.handles().contains(handle),
    ensures
        q.register(handle, insert).handles_distinct(),
        q.register(handle, insert).no_handle_in_both(),
{
    let p = q.register(handle, insert);
    assert(p.handles() =~= q.handles().push(handle));
    lemma_distinct_no_handle_in_both(p);
}

proof fn lemma_passes_keep_handles_distinct<H, F>(q: QueueView<H, F>, rs: Seq<Seq<bool>>)
    requires
        q.handles_distinct(),
    ensures
        q.after_passes(rs).handles_distinct(),
    decreases rs.len(),
{
    if rs.len() > 0 {
        lemma_passes_keep_handles_distinct(q, rs.drop_last());
        lemma_pass_keeps_handles_distinct(q.after_passes(rs.drop_last()), rs.last());
    }
}

proof fn lemma_passes_keep_finished<H, F>(q: QueueView<H, F>, rs: Seq<Seq<bool>>, h: H)
    requires
        q.finished.contains(h),
    ensures
        q.after_passes(rs).finished.contains(h),
    decreases rs.len(),
{
    if rs.len() > 0 {
        lemma_passes_keep_finished(q, rs.drop_last(), h);
        let p = q.after_passes(rs.drop_last());
        let i = choose|i: int| 0 <= i < p.finished.len() && p.finished[i] == h;
        assert(p.pass(rs.last()).finished[i] == h);
    }
}

/// Each pass examines every entry waiting at its start exactly once: the
/// entries it finalizes and those left waiting are those entries, each once,
/// `finished` grows by one handle per finalized entry, and the counts follow
/// the readiness flags.
pub proof fn lemma_pass_examines_each_once<H, F>(q: QueueView<H, F>, r: Seq<bool>)
    requires
        r.len() == q.waiting.len(),
    ensures
        (q.ready_entries(r) + q.pass(r).waiting).to_multiset() =~= q.waiting.to_multiset(),
        q.ready_entries(r).len() == number_with(r, true, r.len() as int),
        q.pass(r).waiting.len() == number_with(r, false, r.len() as int),
        q.pass(r).finished.len() == q.finished.len() + q.ready_entries(r).len(),
{
    lemma_entries_where_partition(q.waiting, r);
    lemma_entries_where_len(q.waiting, r, true);
    lemma_entries_where_len(q.waiting, r, false);
}

/// Once a handle is finished, no later pass finalizes it again: the
/// entries a pass finalizes are only ever waiting ones.
pub proof fn lemma_finished_never_finalized_again<H, F>(
    q: QueueView<H, F>,
    rs: Seq<Seq<bool>>,
    r: Seq<bool>,
    h: H,
)
    requires
        q.handles_distinct(),
        q.finished.contains(h),
    ensures
        !handles_of(q.after_passes(rs).ready_entries(r)).contains(h),
{
    let p = q.after_passes(rs);
    lemma_passes_keep_handles_distinct(q, rs);
    lemma_passes_keep_finished(q, rs, h);
    lemma_distinct_no_handle_in_both(p);
    lemma_handles_of_entries_where(p.waiting, r, true);
    if handles_of(p.ready_entries(r)).contains(h) {
        lemma_entries_where_contains(p.waiting_handles(), r, true, h);
    }
}

/// A pass keeps the order of the entries left waiting: if entry `i` comes
/// before entry `j` and neither is ready, `i` still comes before `j`, so it
/// is examined first in the next pass too.
pub proof fn lemma_pass_keeps_order<H, F>(q: QueueView<H, F>, r: Seq<bool>, i: int, j: int)
    requires
        r.len() == q.waiting.len(),
        0 <= i < j < q.waiting.len(),
        !r[i],
        !r[j],
    ensures
        number_with(r, false, i) < number_with(r, false, j),
        number_with(r, false, j) < q.pass(r).waiting.len(),
        q.pass(r).waiting[number_with(r, false, i) as int] == q.waiting[i],
        q.pass(r).waiting[number_with(r, false, j) as int] == q.waiting[j],
{
    lemma_number_with_grows(r, false, i, j);
    lemma_entries_where_index(q.waiting, r, false, i);
    lemma_entries_where_index(q.waiting, r, false, j);
}

} // verus!
