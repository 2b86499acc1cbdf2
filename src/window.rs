//! One window: the ordered records kept for a single (account, kind) key.

use vstd::prelude::*;

use crate::{Period, Severity};

verus! {

/// One observed offense: when it happened and how heavy it was.
#[derive(Debug, Clone, Copy, PartialEq, Eq, Structural)]
pub struct SeverityRecord {
    pub period: Period,
    pub value: Severity,
}

/// The last `n` elements of `s`, or all of `s` when it holds no more than `n`.
pub open spec fn keep_last(s: Seq<SeverityRecord>, n: nat) -> Seq<SeverityRecord> {
    if s.len() <= n {
        s
    } else {
        s.subrange(s.len() - n, s.len() as int)
    }
}

/// Periods never decrease from the oldest record to the newest.
pub open spec fn chronological(s: Seq<SeverityRecord>) -> bool {
    forall|i: int, j: int| 0 <= i <= j < s.len() ==> s[i].period <= s[j].period
}

/// A record at `period` may be appended without breaking chronological order.
pub open spec fn admits(s: Seq<SeverityRecord>, period: Period) -> bool {
    s.len() == 0 || s.last().period <= period
}

/// Sum of the severities in `s`.
pub open spec fn total_of(s: Seq<SeverityRecord>) -> nat
    decreases s.len(),
{
    if s.len() == 0 {
        0
    } else {
        total_of(s.drop_last()) + s.last().value as nat
    }
}

/// The window after appending `r` to `s` and evicting from the front down to `n`.
pub open spec fn bounded_push(s: Seq<SeverityRecord>, r: SeverityRecord, n: nat) -> Seq<
    SeverityRecord,
> {
    keep_last(s.push(r), n)
}

/// The window that results from recording every element of `s`, in order,
/// into an empty window of length `n`.
pub open spec fn replay(s: Seq<SeverityRecord>, n: nat) -> Seq<SeverityRecord>
    decreases s.len(),
{
    if s.len() == 0 {
        s
    } else {
        bounded_push(replay(s.drop_last(), n), s.last(), n)
    }
}

pub(crate) proof fn lemma_keep_last_push(t: Seq<SeverityRecord>, x: SeverityRecord, n: nat)
    ensures
        bounded_push(keep_last(t, n), x, n) == keep_last(t.push(x), n),
{
    if t.len() > n {
        assert(bounded_push(keep_last(t, n), x, n) =~= keep_last(t.push(x), n));
    }
}

pub(crate) proof fn lemma_keep_last_tail(t: Seq<SeverityRecord>, n: nat)
    requires
        t.len() > 0,
        n >= 1,
    ensures
        keep_last(t, n).len() > 0,
        keep_last(t, n).last() == t.last(),
{
}

/// Eviction is oldest-first: after any sequence of insertions a window holds
/// exactly the most recent `n` records inserted, or all of them when fewer
/// were inserted.
pub proof fn lemma_replay_keeps_most_recent(s: Seq<SeverityRecord>, n: nat)
    ensures
        replay(s, n) == keep_last(s, n),
    decreases s.len(),
{
    if s.len() > 0 {
        lemma_replay_keeps_most_recent(s.drop_last(), n);
        lemma_keep_last_push(s.drop_last(), s.last(), n);
        assert(s.drop_last().push(s.last()) =~= s);
    }
}

proof fn lemma_total_first(s: Seq<SeverityRecord>)
    requires
        s.len() > 0,
    ensures
        total_of(s) == s[0].value + total_of(s.subrange(1, s.len() as int)),
    decreases s.len(),
{
    let tail = s.subrange(1, s.len() as int);
    if s.len() > 1 {
        lemma_total_first(s.drop_last());
        assert(tail.drop_last() =~= s.drop_last().subrange(1, s.len() - 1));
        assert(tail.last() == s.last());
    } else {
        assert(tail =~= Seq::<SeverityRecord>::empty());
        assert(s.drop_last() =~= Seq::<SeverityRecord>::empty());
    }
}

/// Recording adds the new severity to the window's total, and a record that
/// the insertion evicts takes its severity out of the total.
pub proof fn lemma_total_after_push(s: Seq<SeverityRecord>, r: SeverityRecord, n: nat)
    requires
        1 <= n,
        s.len() <= n,
    ensures
        s.len() < n ==> total_of(bounded_push(s, r, n)) == total_of(s) + r.value,
        s.len() == n ==> total_of(bounded_push(s, r, n)) + s[0].value == total_of(s) + r.value,
{
    let p = s.push(r);
    assert(p.drop_last() =~= s);
    if s.len() == n {
        lemma_total_first(p);
        assert(p.subrange(1, p.len() as int) =~= bounded_push(s, r, n));
    }
}

/// A window that holds no more than `n` records, in chronological order,
/// still does so after an admitted insertion: the retained count never
/// exceeds the window length.
pub proof fn lemma_bounded_push_within(s: Seq<SeverityRecord>, r: SeverityRecord, n: nat)
    requires
        s.len() <= n,
        chronological(s),
        admits(s, r.period),
    ensures
        bounded_push(s, r, n).len() <= n,
        chronological(bounded_push(s, r, n)),
{
    let p = s.push(r);
    assert(chronological(p)) by {
        assert forall|i: int, j: int| 0 <= i <= j < p.len() implies p[i].period <= p[j].period by {
            if j == s.len() && i < j {
                assert(s[i].period <= s.last().period);
            }
        }
    }
}

/// Appends `r` to `records`, then evicts the oldest record if the window
/// would hold more than `limit`.
pub(crate) fn push_bounded(records: &mut Vec<SeverityRecord>, r: SeverityRecord, limit: u32)
    requires
        old(records)@.len() <= limit,
    ensures
        final(records)@ == bounded_push(old(records)@, r, limit as nat),
{
    records.push(r);
    if records.len() > limit as usize {
        let _ = records.remove(0);
        assert(final(records)@ =~= bounded_push(old(records)@, r, limit as nat));
    }
}

/// Sum of the severities held in `records`, taken without overflow.
pub(crate) fn sum_severities(records: &Vec<SeverityRecord>) -> (r: u128)
    requires
        records@.len() <= u32::MAX,
    ensures
        r == total_of(records@),
{
    let mut acc: u128 = 0;
    let mut i: usize = 0;
    while i < records.len()
        invariant
            i <= records@.len() <= u32::MAX,
            acc == total_of(records@.take(i as int)),
            acc <= i * 0xFFFF_FFFF_FFFF_FFFFu128,
        decreases records@.len() - i,
    {
        assert(records@.take(i + 1).drop_last() =~= records@.take(i as int));
        acc = acc + records[i].value as u128;
        i = i + 1;
    }
    assert(records@.take(i as int) =~= records@);
    acc
}

} // verus!
