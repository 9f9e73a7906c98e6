//! Bounded histories: double-ended queues that keep only the most recent
//! entries once a capacity is reached.

use vstd::prelude::*;
use std::collections::VecDeque;

verus! {

/// `q` after `push_back(item)` and, when longer than `cap`, one `pop_front()`.
pub open spec fn bounded_push_back<T>(q: Seq<T>, item: T, cap: nat) -> Seq<T> {
    let t = q.push(item);
    if t.len() > cap { t.drop_first() } else { t }
}

/// `q` after `push_front(item)` and, when longer than `cap`, one `pop_back()`.
pub open spec fn bounded_push_front<T>(q: Seq<T>, item: T, cap: nat) -> Seq<T> {
    let t = seq![item] + q;
    if t.len() > cap { t.drop_last() } else { t }
}

/// Appends `item`, dropping the oldest entry when the history exceeds `cap`.
pub fn push_back_bounded<T>(q: &mut VecDeque<T>, item: T, cap: usize)
    ensures
        final(q)@ == bounded_push_back(old(q)@, item, cap as nat),
{
    q.push_back(item);
    if q.len() > cap {
        let _ = q.pop_front();
        assert(q@ =~= bounded_push_back(old(q)@, item, cap as nat));
    }
}

/// Prepends `item`, dropping the oldest (last) entry when the history exceeds `cap`.
pub fn push_front_bounded<T>(q: &mut VecDeque<T>, item: T, cap: usize)
    ensures
        final(q)@ == bounded_push_front(old(q)@, item, cap as nat),
{
    q.push_front(item);
    if q.len() > cap {
        let _ = q.pop_back();
        assert(q@ =~= bounded_push_front(old(q)@, item, cap as nat));
    }
}

/// A history within its capacity stays within it, ends with the new entry,
/// and keeps the most recent older entries in their order.
pub proof fn law_bounded_push_back<T>(q: Seq<T>, item: T, cap: nat)
    requires
        1 <= cap,
        q.len() <= cap,
    ensures
        bounded_push_back(q, item, cap).len() <= cap,
        bounded_push_back(q, item, cap).last() == item,
        bounded_push_back(q, item, cap) == q.push(item).skip(q.len() + 1 - bounded_push_back(q, item, cap).len()),
{
    let r = bounded_push_back(q, item, cap);
    if q.len() + 1 > cap {
        assert(r =~= q.push(item).skip(1));
    } else {
        assert(r =~= q.push(item).skip(0));
    }
}

/// Likewise for the front: the new entry comes first and the entries kept
/// are the newest ones, in order.
pub proof fn law_bounded_push_front<T>(q: Seq<T>, item: T, cap: nat)
    requires
        1 <= cap,
        q.len() <= cap,
    ensures
        bounded_push_front(q, item, cap).len() <= cap,
        bounded_push_front(q, item, cap)[0] == item,
        bounded_push_front(q, item, cap) == (seq![item] + q).take(bounded_push_front(q, item, cap).len() as int),
{
    let r = bounded_push_front(q, item, cap);
    if q.len() + 1 > cap {
        assert(r =~= (seq![item] + q).take(cap as int));
    } else {
        assert(r =~= (seq![item] + q).take((q.len() + 1) as int));
    }
}

/// `q` after `bounded_push_front` of each of `items` in order (the last item
/// ends up first).
pub open spec fn bounded_push_front_all<T>(q: Seq<T>, items: Seq<T>, cap: nat) -> Seq<T>
    decreases items.len(),
{
    if items.len() == 0 {
        q
    } else {
        bounded_push_front(bounded_push_front_all(q, items.drop_last(), cap), items.last(), cap)
    }
}

/// Prepends each of `items` in order, keeping at most `cap` entries: the
/// newest item comes first and the oldest entries drop off the back.
pub fn push_front_all_bounded<T>(q: &mut VecDeque<T>, items: Vec<T>, cap: usize)
    ensures
        final(q)@ == bounded_push_front_all(old(q)@, items@, cap as nat),
{
    let ghost orig = items@;
    let ghost n = orig.len();
    let mut items = items;
    let mut rev: Vec<T> = Vec::new();
    while items.len() > 0
        invariant
            items@.len() + rev@.len() == n,
            items@ == orig.take(items@.len() as int),
            forall|j: int| 0 <= j < rev@.len() ==> #[trigger] rev@[j] == orig[n - 1 - j],
            orig.len() == n,
        decreases items@.len(),
    {
        let x = items.pop().unwrap();
        assert(items@ =~= orig.take(items@.len() as int));
        rev.push(x);
    }
    let ghost start = q@;
    while rev.len() > 0
        invariant
            rev@.len() <= n,
            orig.len() == n,
            forall|j: int| 0 <= j < rev@.len() ==> #[trigger] rev@[j] == orig[n - 1 - j],
            q@ == bounded_push_front_all(start, orig.take(n - rev@.len()), cap as nat),
        decreases rev@.len(),
    {
        let ghost k: int = n - rev@.len();
        let x = rev.pop().unwrap();
        assert(orig.take(k + 1).drop_last() =~= orig.take(k));
        assert(orig.take(k + 1).last() == orig[k]);
        push_front_bounded(q, x, cap);
    }
    assert(orig.take(n as int) =~= orig);
}

/// Prepending several items keeps the newest ones, newest first: within
/// its capacity, the history becomes the items in reverse followed by the
/// old entries, cut to the capacity.
pub proof fn law_bounded_push_front_all<T>(q: Seq<T>, items: Seq<T>, cap: nat)
    requires
        1 <= cap,
        q.len() <= cap,
    ensures
        bounded_push_front_all(q, items, cap).len() == if q.len() + items.len() <= cap {
            q.len() + items.len()
        } else {
            cap
        },
        bounded_push_front_all(q, items, cap) == (items.reverse() + q).take(
            bounded_push_front_all(q, items, cap).len() as int,
        ),
    decreases items.len(),
{
    if items.len() > 0 {
        let pre = items.drop_last();
        law_bounded_push_front_all(q, pre, cap);
        let r0 = bounded_push_front_all(q, pre, cap);
        law_bounded_push_front(r0, items.last(), cap);
        let r = bounded_push_front_all(q, items, cap);
        let whole = items.reverse() + q;
        let whole0 = pre.reverse() + q;
        assert(whole =~= seq![items.last()] + whole0);
        assert(r =~= whole.take(r.len() as int));
    } else {
        assert(items.reverse() + q =~= q);
        assert(q.take(q.len() as int) =~= q);
    }
}

} // verus!
