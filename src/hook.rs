//! The session hook: turns boundary and account-removal notifications from
//! the surrounding runtime into steps of the window store, ignoring
//! redelivered boundaries and refusing older ones.

use vstd::prelude::*;

use crate::store::{WindowError, WindowModel, WindowStore};
use crate::{AccountId, Period};

verus! {

/// A notification from the surrounding runtime.
#[derive(Debug, Clone, Copy, PartialEq, Eq, Structural)]
pub enum Notification {
    /// The session that ends at `period` is over.
    SessionEnding(Period),
    /// The era that ends at `period` is over.
    EraEnding(Period),
    /// The account has left the system.
    AccountRemoved(AccountId),
}

/// Remembers the last boundary period it processed.
pub struct SessionHook {
    last_period: Option<Period>,
}

impl View for SessionHook {
    type V = Option<Period>;

    closed spec fn view(&self) -> Option<Period> {
        self.last_period
    }
}

/// One boundary at `period`: older than the last one processed is refused,
/// equal to it is ignored, newer advances the store.
pub open spec fn boundary_step(last: Option<Period>, m: WindowModel, period: Period) -> (
    Option<Period>,
    WindowModel,
    Result<bool, WindowError>,
) {
    match last {
        Some(l) => if period < l {
            (last, m, Err(WindowError::StalePeriodNotification))
        } else if period == l {
            (last, m, Ok(false))
        } else {
            (Some(period), m.advanced_to(period), Ok(true))
        },
        None => (Some(period), m.advanced_to(period), Ok(true)),
    }
}

/// The hook's last period, the store's state and the result after
/// notification `n`. `Ok(true)` means the notification was applied,
/// `Ok(false)` that it repeated the last boundary and changed nothing.
pub open spec fn hook_step(last: Option<Period>, m: WindowModel, n: Notification) -> (
    Option<Period>,
    WindowModel,
    Result<bool, WindowError>,
) {
    match n {
        Notification::SessionEnding(p) => boundary_step(last, m, p),
        Notification::EraEnding(p) => boundary_step(last, m, p),
        Notification::AccountRemoved(a) => (last, m.without_account(a), Ok(true)),
    }
}

/// Delivering any notification twice leaves the hook and the store as
/// delivering it once does; a repeated boundary reports that it changed
/// nothing.
pub proof fn lemma_redelivery_changes_nothing(last: Option<Period>, m: WindowModel, n: Notification)
    ensures
        ({
            let once = hook_step(last, m, n);
            let twice = hook_step(once.0, once.1, n);
            twice.0 == once.0 && twice.1 == once.1 && (n matches Notification::AccountRemoved(_)
                || once.2 is Err || twice.2 == Ok::<bool, WindowError>(false))
        }),
{
    let once = hook_step(last, m, n);
    let twice = hook_step(once.0, once.1, n);
    if let Notification::AccountRemoved(a) = n {
        assert(twice.1.windows =~= once.1.windows);
    }
}

impl SessionHook {
    /// A hook that has processed no boundary yet.
    pub fn new() -> (r: SessionHook)
        ensures
            r@ == None::<Period>,
    {
        SessionHook { last_period: None }
    }

    /// The last boundary period processed, if any.
    pub fn last_period(&self) -> (r: Option<Period>)
        ensures
            r == self@,
    {
        self.last_period
    }

    /// Applies notification `n` to `store`: a new boundary advances the
    /// store's current period, a repeated one is ignored, an older one is
    /// refused with `StalePeriodNotification`, and a removed account has its
    /// windows emptied.
    pub fn deliver(&mut self, store: &mut WindowStore, n: Notification) -> (r: Result<
        bool,
        WindowError,
    >)
        requires
            old(store).wf(),
        ensures
            final(store).wf(),
            (final(self)@, final(store)@, r) == hook_step(old(self)@, old(store)@, n),
    {
        match n {
            Notification::SessionEnding(p) => self.boundary(store, p),
            Notification::EraEnding(p) => self.boundary(store, p),
            Notification::AccountRemoved(a) => {
                store.evict_account(a);
                Ok(true)
            },
        }
    }

    fn boundary(&mut self, store: &mut WindowStore, period: Period) -> (r: Result<bool, WindowError>)
        requires
            old(store).wf(),
        ensures
            final(store).wf(),
            (final(self)@, final(store)@, r) == boundary_step(old(self)@, old(store)@, period),
    {
        match self.last_period {
            Some(l) => {
                if period < l {
                    return Err(WindowError::StalePeriodNotification);
                }
                if period == l {
                    return Ok(false);
                }
            },
            None => {},
        }
        self.last_period = Some(period);
        store.advance_period(period);
        Ok(true)
    }
}

} // verus!
