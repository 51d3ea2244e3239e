//! Readings that wait for a later sample before they become visible to the user.
use vstd::prelude::*;

verus! {

/// Guarded readings need a fresh sample this many nanoseconds (six seconds) later before
/// they are shown.
pub const READING_CONFIRMATION_DELAY: u64 = 6_000_000_000;

/// A controller that connects without a usable reading is asked again after this many
/// nanoseconds (a quarter of a second).
pub const INITIAL_READING_RETRY_DELAY: u64 = 250_000_000;

/// How many times a due refresh may be postponed before it is given up.
pub const MAX_DEFERRED_REFRESHES: u8 = 2;

/// A reading that must persist before it is believed.
#[derive(Clone, Copy, Debug, PartialEq, Eq, Structural)]
pub enum ConfirmationCandidate {
    Low,
    Wired,
}

/// Why a controller's reading is pending.
#[derive(Clone, Copy, Debug, PartialEq, Eq, Structural)]
pub enum PendingReadingKind {
    AwaitingUsable,
    Confirming(ConfirmationCandidate),
}

/// What is announced once a pending reading settles.
#[derive(Clone, Copy, Debug, PartialEq, Eq, Structural)]
pub enum PendingAnnouncement {
    Connected,
    BatteryStatus,
}

/// A pending reading: its kind, when to look again, and how often looking has failed.
#[derive(Clone, Copy, Debug, PartialEq, Eq, Structural)]
pub struct PendingReading {
    pub kind: PendingReadingKind,
    pub next_check: u64,
    pub inconclusive_refreshes: u8,
    pub missing_refreshes: u8,
}

impl View for PendingReading {
    type V = PendingReading;

    open spec fn view(&self) -> PendingReading {
        *self
    }
}

impl View for PendingAnnouncement {
    type V = PendingAnnouncement;

    open spec fn view(&self) -> PendingAnnouncement {
        *self
    }
}

pub open spec fn saturating_add(a: u64, b: u64) -> u64 {
    if a + b > u64::MAX {
        u64::MAX
    } else {
        (a + b) as u64
    }
}

pub open spec fn saturating_sub(a: u64, b: u64) -> u64 {
    if a > b {
        (a - b) as u64
    } else {
        0
    }
}

pub open spec fn saturating_inc(a: u8) -> u8 {
    if a == u8::MAX {
        a
    } else {
        (a + 1) as u8
    }
}

pub open spec fn retry_delay_spec(kind: PendingReadingKind) -> u64 {
    match kind {
        PendingReadingKind::AwaitingUsable => INITIAL_READING_RETRY_DELAY,
        PendingReadingKind::Confirming(_) => READING_CONFIRMATION_DELAY,
    }
}

pub open spec fn pending_new(kind: PendingReadingKind, now: u64) -> PendingReading {
    PendingReading {
        kind,
        next_check: saturating_add(now, retry_delay_spec(kind)),
        inconclusive_refreshes: 0,
        missing_refreshes: 0,
    }
}

pub open spec fn pending_is_due(pending: PendingReading, now: u64) -> bool {
    now >= pending.next_check
}

pub open spec fn pending_delay(pending: PendingReading, now: u64) -> u64 {
    saturating_sub(pending.next_check, now)
}

/// Postpones a due reading that came back inconclusive: false once it has been
/// postponed too often (the counters are then updated, the deadline is not).
pub open spec fn pending_defer_inconclusive(pending: PendingReading, now: u64) -> (bool, PendingReading) {
    let counted = PendingReading {
        missing_refreshes: 0,
        inconclusive_refreshes: saturating_inc(pending.inconclusive_refreshes),
        ..pending
    };
    if counted.inconclusive_refreshes > MAX_DEFERRED_REFRESHES {
        (false, counted)
    } else {
        (true, PendingReading { next_check: saturating_add(now, retry_delay_spec(pending.kind)), ..counted })
    }
}

/// Postpones a due reading whose controller was missing from a snapshot.
pub open spec fn pending_defer_missing(pending: PendingReading, now: u64) -> (bool, PendingReading) {
    let counted = PendingReading {
        inconclusive_refreshes: 0,
        missing_refreshes: saturating_inc(pending.missing_refreshes),
        ..pending
    };
    if counted.missing_refreshes > MAX_DEFERRED_REFRESHES {
        (false, counted)
    } else {
        (true, PendingReading { next_check: saturating_add(now, retry_delay_spec(pending.kind)), ..counted })
    }
}

/// Notes a sample: it clears the missing streak, and a conclusive one the inconclusive streak.
pub open spec fn pending_observe(pending: PendingReading, is_conclusive: bool) -> PendingReading {
    PendingReading {
        missing_refreshes: 0,
        inconclusive_refreshes: if is_conclusive {
            0
        } else {
            pending.inconclusive_refreshes
        },
        ..pending
    }
}

impl PendingReadingKind {
    pub fn retry_delay(self) -> (delay: u64)
        ensures
            delay == retry_delay_spec(self),
    {
        match self {
            PendingReadingKind::AwaitingUsable => INITIAL_READING_RETRY_DELAY,
            PendingReadingKind::Confirming(_) => READING_CONFIRMATION_DELAY,
        }
    }
}

impl PendingReading {
    pub fn awaiting_usable(now: u64) -> (pending: Self)
        ensures
            pending == pending_new(PendingReadingKind::AwaitingUsable, now),
    {
        Self::new(PendingReadingKind::AwaitingUsable, now)
    }

    pub fn confirming(candidate: ConfirmationCandidate, now: u64) -> (pending: Self)
        ensures
            pending == pending_new(PendingReadingKind::Confirming(candidate), now),
    {
        Self::new(PendingReadingKind::Confirming(candidate), now)
    }

    pub fn new(kind: PendingReadingKind, now: u64) -> (pending: Self)
        ensures
            pending == pending_new(kind, now),
    {
        PendingReading {
            kind,
            next_check: now.saturating_add(kind.retry_delay()),
            inconclusive_refreshes: 0,
            missing_refreshes: 0,
        }
    }

    pub fn is_due(self, now: u64) -> (due: bool)
        ensures
            due == pending_is_due(self, now),
    {
        now >= self.next_check
    }

    pub fn delay(self, now: u64) -> (delay: u64)
        ensures
            delay == pending_delay(self, now),
    {
        self.next_check.saturating_sub(now)
    }

    pub fn defer_inconclusive(&mut self, now: u64) -> (deferred: bool)
        ensures
            (deferred, *final(self)) == pending_defer_inconclusive(*old(self), now),
    {
        self.missing_refreshes = 0;
        self.inconclusive_refreshes = self.inconclusive_refreshes.saturating_add(1);
        if self.inconclusive_refreshes > MAX_DEFERRED_REFRESHES {
            return false;
        }
        self.next_check = now.saturating_add(self.kind.retry_delay());
        true
    }

    pub fn defer_missing(&mut self, now: u64) -> (deferred: bool)
        ensures
            (deferred, *final(self)) == pending_defer_missing(*old(self), now),
    {
        self.inconclusive_refreshes = 0;
        self.missing_refreshes = self.missing_refreshes.saturating_add(1);
        if self.missing_refreshes > MAX_DEFERRED_REFRESHES {
            return false;
        }
        self.next_check = now.saturating_add(self.kind.retry_delay());
        true
    }

    pub fn observe(&mut self, is_conclusive: bool)
        ensures
            *final(self) == pending_observe(*old(self), is_conclusive),
    {
        self.missing_refreshes = 0;
        if is_conclusive {
            self.inconclusive_refreshes = 0;
        }
    }
}


/// A new pending reading is looked at again after its kind's delay: a quarter of a
/// second for a controller awaiting a usable reading, six seconds for a reading being
/// confirmed; the time never wraps past the clock's end.
pub proof fn law_pending_readings_wait_their_kind_of_delay(now: u64, candidate: ConfirmationCandidate)
    ensures
        pending_new(PendingReadingKind::AwaitingUsable, now).next_check == (if now + 250_000_000 > u64::MAX {
            u64::MAX
        } else {
            (now + 250_000_000) as u64
        }),
        pending_new(PendingReadingKind::Confirming(candidate), now).next_check == (if now + 6_000_000_000
            > u64::MAX {
            u64::MAX
        } else {
            (now + 6_000_000_000) as u64
        }),
        pending_new(PendingReadingKind::AwaitingUsable, now).inconclusive_refreshes == 0,
        pending_new(PendingReadingKind::AwaitingUsable, now).missing_refreshes == 0,
{
}

} // verus!
