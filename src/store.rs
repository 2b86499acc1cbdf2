//! The window store: for every (account, kind) key, the bounded window of
//! its most recent severity records, and the store's current period.

use vstd::prelude::*;
use vstd::hash_map::HashMapWithView;

use crate::policy::{spec_window_length, Kind};
use crate::window::{
    admits, bounded_push, chronological, keep_last, lemma_bounded_push_within, lemma_keep_last_push,
    lemma_keep_last_tail, push_bounded, sum_severities, total_of, SeverityRecord,
};
use crate::{AccountId, ExtendedBalance, Period};

verus! {

broadcast use vstd::std_specs::hash::group_hash_axioms;

/// Why an operation on the store or on the session hook was refused.
#[derive(Debug, Clone, Copy, PartialEq, Eq, Structural)]
pub enum WindowError {
    /// A record's period precedes the last period recorded for its key.
    OutOfOrderPeriod,
    /// A boundary notification names a period older than one already processed.
    StalePeriodNotification,
}

/// Abstract state of a store: its current period and, for every key, the
/// records its window retains (empty for a key never recorded).
pub ghost struct WindowModel {
    pub current_period: Period,
    pub windows: Map<(AccountId, Kind), Seq<SeverityRecord>>,
}

impl WindowModel {
    /// The store with no records, at period zero.
    pub open spec fn empty() -> WindowModel {
        WindowModel {
            current_period: 0,
            windows: Map::new(
                |key: (AccountId, Kind)| true,
                |key: (AccountId, Kind)| Seq::<SeverityRecord>::empty(),
            ),
        }
    }

    /// The records retained for `account` in category `kind`.
    pub open spec fn window(self, account: AccountId, kind: Kind) -> Seq<SeverityRecord> {
        self.windows[(account, kind)]
    }

    /// Every key has a window, no window exceeds its category's length, and
    /// every window is in chronological order.
    pub open spec fn well_formed(self) -> bool {
        forall|key: (AccountId, Kind)|
            #![trigger self.windows[key]]
            self.windows.dom().contains(key) && self.windows[key].len() <= spec_window_length(key.1)
                && chronological(self.windows[key])
    }

    /// The state after `r` is appended to the window of (`account`, `kind`),
    /// oldest records evicted beyond the category's length.
    pub open spec fn recorded(
        self,
        account: AccountId,
        kind: Kind,
        r: SeverityRecord,
    ) -> WindowModel {
        WindowModel {
            windows: self.windows.insert(
                (account, kind),
                bounded_push(self.window(account, kind), r, spec_window_length(kind)),
            ),
            ..self
        }
    }

    /// The state after the chronological run `rs` is appended to the window
    /// of (`account`, `kind`), oldest records evicted beyond its length.
    pub open spec fn restored(
        self,
        account: AccountId,
        kind: Kind,
        rs: Seq<SeverityRecord>,
    ) -> WindowModel {
        WindowModel {
            windows: self.windows.insert(
                (account, kind),
                keep_last(self.window(account, kind) + rs, spec_window_length(kind)),
            ),
            ..self
        }
    }

    /// The state with every window of `account` emptied.
    pub open spec fn without_account(self, account: AccountId) -> WindowModel {
        WindowModel {
            windows: Map::new(
                |key: (AccountId, Kind)| true,
                |key: (AccountId, Kind)|
                    if key.0 == account {
                        Seq::<SeverityRecord>::empty()
                    } else {
                        self.windows[key]
                    },
            ),
            ..self
        }
    }

    /// The state after the current period moves to `period`; an older
    /// period leaves it where it is.
    pub open spec fn advanced_to(self, period: Period) -> WindowModel {
        WindowModel {
            current_period: if period > self.current_period {
                period
            } else {
                self.current_period
            },
            ..self
        }
    }

    /// No record of the window lies within the category's length of the
    /// current period.
    pub open spec fn stale(self, account: AccountId, kind: Kind) -> bool {
        forall|i: int|
            0 <= i < self.window(account, kind).len() ==> self.window(account, kind)[i].period
                + spec_window_length(kind) < self.current_period
    }
}

/// A run `rs` can follow window `w`: it is chronological and starts no
/// earlier than the window's last record.
pub open spec fn restorable(w: Seq<SeverityRecord>, rs: Seq<SeverityRecord>) -> bool {
    chronological(rs) && (rs.len() == 0 || admits(w, rs[0].period))
}

/// The four windows of one account.
struct AccountWindows {
    one: Vec<SeverityRecord>,
    two: Vec<SeverityRecord>,
    three: Vec<SeverityRecord>,
    four: Vec<SeverityRecord>,
}

impl AccountWindows {
    spec fn window(&self, kind: Kind) -> Seq<SeverityRecord> {
        match kind {
            Kind::One => self.one@,
            Kind::Two => self.two@,
            Kind::Three => self.three@,
            Kind::Four => self.four@,
        }
    }

    spec fn wf(&self) -> bool {
        forall|k: Kind|
            #![trigger self.window(k)]
            self.window(k).len() <= spec_window_length(k) && chronological(self.window(k))
    }

    fn new() -> (r: AccountWindows)
        ensures
            r.wf(),
            forall|k: Kind| #[trigger] r.window(k) == Seq::<SeverityRecord>::empty(),
    {
        let r = AccountWindows { one: Vec::new(), two: Vec::new(), three: Vec::new(), four: Vec::new() };
        assert forall|k: Kind| #[trigger] r.window(k) == Seq::<SeverityRecord>::empty() by {
            match k {
                Kind::One => assert(r.one@ =~= Seq::<SeverityRecord>::empty()),
                Kind::Two => assert(r.two@ =~= Seq::<SeverityRecord>::empty()),
                Kind::Three => assert(r.three@ =~= Seq::<SeverityRecord>::empty()),
                Kind::Four => assert(r.four@ =~= Seq::<SeverityRecord>::empty()),
            }
        }
        r
    }

    fn get(&self, kind: Kind) -> (r: &Vec<SeverityRecord>)
        ensures
            r@ == self.window(kind),
    {
        match kind {
            Kind::One => &self.one,
            Kind::Two => &self.two,
            Kind::Three => &self.three,
            Kind::Four => &self.four,
        }
    }

    fn record(&mut self, kind: Kind, r: SeverityRecord)
        requires
            old(self).wf(),
            admits(old(self).window(kind), r.period),
        ensures
            final(self).wf(),
            final(self).window(kind) == bounded_push(
                old(self).window(kind),
                r,
                spec_window_length(kind),
            ),
            forall|k: Kind| k != kind ==> #[trigger] final(self).window(k) == old(self).window(k),
    {
        let limit = kind.window_length();
        proof {
            lemma_bounded_push_within(old(self).window(kind), r, spec_window_length(kind));
        }
        match kind {
            Kind::One => push_bounded(&mut self.one, r, limit),
            Kind::Two => push_bounded(&mut self.two, r, limit),
            Kind::Three => push_bounded(&mut self.three, r, limit),
            Kind::Four => push_bounded(&mut self.four, r, limit),
        }
        assert forall|k: Kind| #[trigger] self.window(k).len() <= spec_window_length(k) && chronological(
            self.window(k),
        ) by {
            assert(old(self).window(k).len() <= spec_window_length(k));
        }
    }
}

/// Bounded windows of severity records for every (account, kind) key.
pub struct WindowStore {
    accounts: HashMapWithView<AccountId, AccountWindows>,
    current_period: Period,
}

impl View for WindowStore {
    type V = WindowModel;

    closed spec fn view(&self) -> WindowModel {
        WindowModel {
            current_period: self.current_period,
            windows: Map::new(
                |key: (AccountId, Kind)| true,
                |key: (AccountId, Kind)| self.window_of(key.0, key.1),
            ),
        }
    }
}

impl WindowStore {
    closed spec fn window_of(&self, account: AccountId, kind: Kind) -> Seq<SeverityRecord> {
        if self.accounts@.contains_key(account) {
            self.accounts@[account].window(kind)
        } else {
            Seq::<SeverityRecord>::empty()
        }
    }

    /// The store's internal invariant: every account's windows are bounded
    /// and chronological.
    pub closed spec fn wf(&self) -> bool {
        forall|a: AccountId| #[trigger]
            self.accounts@.contains_key(a) ==> self.accounts@[a].wf()
    }

    proof fn lemma_view_well_formed(&self)
        requires
            self.wf(),
        ensures
            self@.well_formed(),
    {
        assert forall|key: (AccountId, Kind)|
            #![trigger self@.windows[key]]
            self@.windows.dom().contains(key) && self@.windows[key].len() <= spec_window_length(key.1)
                && chronological(self@.windows[key]) by {
            if self.accounts@.contains_key(key.0) {
                assert(self.accounts@[key.0].wf());
                assert(self.accounts@[key.0].window(key.1).len() <= spec_window_length(key.1));
            }
        }
    }

    /// An empty store at period zero.
    pub fn new() -> (r: WindowStore)
        ensures
            r.wf(),
            r@ == WindowModel::empty(),
    {
        let r = WindowStore { accounts: HashMapWithView::new(), current_period: 0 };
        assert(r@.windows =~= WindowModel::empty().windows);
        r
    }

    /// Appends a record of `severity` at `period` to the window of
    /// (`account`, `kind`), evicting the oldest record beyond the category's
    /// length. A period older than the window's last one is refused and the
    /// store is left as it was.
    pub fn record(&mut self, account: AccountId, kind: Kind, period: Period, severity: u64) -> (r:
        Result<(), WindowError>)
        requires
            old(self).wf(),
        ensures
            final(self).wf(),
            final(self)@.well_formed(),
            admits(old(self)@.window(account, kind), period) ==> r == Ok::<(), WindowError>(())
                && final(self)@ == old(self)@.recorded(
                account,
                kind,
                SeverityRecord { period, value: severity },
            ),
            !admits(old(self)@.window(account, kind), period) ==> r == Err::<(), WindowError>(
                WindowError::OutOfOrderPeriod,
            ) && final(self)@ == old(self)@,
    {
        let rec = SeverityRecord { period, value: severity };
        proof {
            assert(old(self)@.window(account, kind) == old(self).window_of(account, kind));
        }
        match self.accounts.get(&account) {
            Some(w) => {
                let recs = w.get(kind);
                if recs.len() > 0 && recs[recs.len() - 1].period > period {
                    proof {
                        self.lemma_view_well_formed();
                    }
                    return Err(WindowError::OutOfOrderPeriod);
                }
            },
            None => {},
        }
        let mut w = match self.accounts.remove(&account) {
            Some(w) => w,
            None => AccountWindows::new(),
        };
        w.record(kind, rec);
        self.accounts.insert(account, w);
        proof {
            let expect = old(self)@.recorded(account, kind, rec);
            assert forall|key: (AccountId, Kind)| #[trigger]
                self@.windows[key] == expect.windows[key] by {
                assert(self@.windows[key] == self.window_of(key.0, key.1));
                assert(old(self)@.windows[key] == old(self).window_of(key.0, key.1));
            }
            assert(self@.windows =~= expect.windows);
            assert(self.wf());
            self.lemma_view_well_formed();
        }
        Ok(())
    }

    /// Appends a chronological run of persisted records to the window of
    /// (`account`, `kind`), keeping only the category's most recent ones.
    /// A run out of order, or older than the window's last record, is
    /// refused as a whole and the store is left as it was.
    pub fn restore(&mut self, account: AccountId, kind: Kind, records: &Vec<SeverityRecord>) -> (r:
        Result<(), WindowError>)
        requires
            old(self).wf(),
        ensures
            final(self).wf(),
            final(self)@.well_formed(),
            restorable(old(self)@.window(account, kind), records@) ==> r == Ok::<(), WindowError>(
                (),
            ) && final(self)@ == old(self)@.restored(account, kind, records@),
            !restorable(old(self)@.window(account, kind), records@) ==> r == Err::<(), WindowError>(
                WindowError::OutOfOrderPeriod,
            ) && final(self)@ == old(self)@,
    {
        proof {
            self.lemma_view_well_formed();
        }
        let ghost w = old(self)@.window(account, kind);
        let ghost n = spec_window_length(kind);
        let mut i: usize = 1;
        while i < records.len()
            invariant
                1 <= i,
                self.wf(),
                self@ == old(self)@,
                self@.well_formed(),
                forall|a: int, b: int|
                    0 <= a <= b < i && b < records@.len() ==> records@[a].period
                        <= records@[b].period,
            decreases records@.len() - i,
        {
            if records[i - 1].period > records[i].period {
                assert(!chronological(records@));
                return Err(WindowError::OutOfOrderPeriod);
            }
            i = i + 1;
        }
        assert(chronological(records@));
        proof {
            assert(w + records@.take(0) =~= w);
            assert(old(self)@.restored(account, kind, records@.take(0)).windows =~= old(self)@.windows);
        }
        let mut j: usize = 0;
        while j < records.len()
            invariant
                self.wf(),
                j <= records@.len(),
                chronological(records@),
                j == 0 || admits(w, records@[0].period),
                w == old(self)@.window(account, kind),
                n == spec_window_length(kind),
                old(self)@.well_formed(),
                self@ == old(self)@.restored(account, kind, records@.take(j as int)),
            decreases records@.len() - j,
        {
            let rec = records[j];
            let ghost t = w + records@.take(j as int);
            proof {
                self.lemma_view_well_formed();
                assert(self@.window(account, kind) == keep_last(t, n));
                if j > 0 {
                    lemma_keep_last_tail(t, n);
                    assert(t.last() == records@[j - 1]);
                }
            }
            let res = self.record(account, kind, rec.period, rec.value);
            if res.is_err() {
                proof {
                    if j > 0 {
                        assert(records@[j - 1].period <= records@[j as int].period);
                    } else {
                        assert(w + records@.take(0) =~= w);
                        assert(old(self)@.restored(account, kind, records@.take(0)).windows
                            =~= old(self)@.windows);
                    }
                }
                return res;
            }
            proof {
                lemma_keep_last_push(t, rec, n);
                assert(w + records@.take(j + 1) =~= t.push(rec));
                assert(self@.windows =~= old(self)@.restored(
                    account,
                    kind,
                    records@.take(j + 1),
                ).windows);
            }
            j = j + 1;
        }
        proof {
            assert(records@.take(j as int) =~= records@);
        }
        Ok(())
    }

    /// Sum of the severities retained for (`account`, `kind`); zero for a
    /// key with no records.
    pub fn total_severity(&self, account: AccountId, kind: Kind) -> (r: ExtendedBalance)
        requires
            self.wf(),
        ensures
            r == total_of(self@.window(account, kind)),
    {
        proof {
            assert(self@.window(account, kind) == self.window_of(account, kind));
        }
        match self.accounts.get(&account) {
            Some(w) => {
                proof {
                    assert(self.accounts@[account].wf());
                    assert(w.window(kind).len() <= spec_window_length(kind));
                }
                sum_severities(w.get(kind))
            },
            None => 0,
        }
    }

    /// Whether the window of (`account`, `kind`) holds at least one record.
    pub fn has_offense(&self, account: AccountId, kind: Kind) -> (r: bool)
        ensures
            r == (self@.window(account, kind).len() > 0),
    {
        proof {
            assert(self@.window(account, kind) == self.window_of(account, kind));
        }
        match self.accounts.get(&account) {
            Some(w) => w.get(kind).len() > 0,
            None => false,
        }
    }

    /// A copy of the records retained for (`account`, `kind`), oldest first.
    pub fn retained(&self, account: AccountId, kind: Kind) -> (r: Vec<SeverityRecord>)
        ensures
            r@ == self@.window(account, kind),
    {
        proof {
            assert(self@.window(account, kind) == self.window_of(account, kind));
        }
        let mut out: Vec<SeverityRecord> = Vec::new();
        match self.accounts.get(&account) {
            Some(w) => {
                let recs = w.get(kind);
                let mut i: usize = 0;
                while i < recs.len()
                    invariant
                        i <= recs@.len(),
                        out@ == recs@.take(i as int),
                    decreases recs@.len() - i,
                {
                    out.push(recs[i]);
                    i = i + 1;
                    assert(out@ =~= recs@.take(i as int));
                }
                assert(recs@.take(i as int) =~= recs@);
            },
            None => {
                assert(out@ =~= Seq::<SeverityRecord>::empty());
            },
        }
        out
    }

    /// Empties every window of `account`, as when the account leaves the
    /// system.
    pub fn evict_account(&mut self, account: AccountId)
        requires
            old(self).wf(),
        ensures
            final(self).wf(),
            final(self)@.well_formed(),
            final(self)@ == old(self)@.without_account(account),
    {
        let _ = self.accounts.remove(&account);
        proof {
            let expect = old(self)@.without_account(account);
            assert forall|key: (AccountId, Kind)| #[trigger]
                self@.windows[key] == expect.windows[key] by {
                assert(self@.windows[key] == self.window_of(key.0, key.1));
                assert(old(self)@.windows[key] == old(self).window_of(key.0, key.1));
            }
            assert(self@.windows =~= expect.windows);
            self.lemma_view_well_formed();
        }
    }

    /// Moves the current period forward to `period`; an older period leaves
    /// it unchanged. No window changes.
    pub fn advance_period(&mut self, period: Period)
        requires
            old(self).wf(),
        ensures
            final(self).wf(),
            final(self)@ == old(self)@.advanced_to(period),
    {
        if period > self.current_period {
            self.current_period = period;
        }
        assert(self@.windows =~= old(self)@.advanced_to(period).windows);
    }

    /// The store's current period.
    pub fn current_period(&self) -> (r: Period)
        ensures
            r == self@.current_period,
    {
        self.current_period
    }

    /// Whether no record of (`account`, `kind`) lies within the category's
    /// length of the current period.
    pub fn is_stale(&self, account: AccountId, kind: Kind) -> (r: bool)
        requires
            self.wf(),
        ensures
            r == self@.stale(account, kind),
    {
        proof {
            assert(self@.window(account, kind) == self.window_of(account, kind));
            self.lemma_view_well_formed();
        }
        match self.accounts.get(&account) {
            Some(w) => {
                let recs = w.get(kind);
                if recs.len() == 0 {
                    true
                } else {
                    let last = recs[recs.len() - 1].period;
                    let reach = last as u128 + kind.window_length() as u128;
                    proof {
                        let s = recs@;
                        assert(chronological(s));
                        assert forall|i: int| 0 <= i < s.len() implies s[i].period <= last by {}
                    }
                    reach < self.current_period as u128
                }
            },
            None => true,
        }
    }
}

} // verus!
