//! Bounded retry: wait for a condition within a time budget.
//!
//! A campaign is a state machine. The caller owns the clock, the check and the
//! timers: it feeds the campaign what happened (`RetryEvent`) and the current
//! time in milliseconds, and carries out what the campaign decides
//! (`RetryAction`): run one attempt for at most some time, pause, or finish.
use vstd::prelude::*;

verus! {

/// The time budget of one campaign, in milliseconds.
#[derive(Clone, Copy, Debug, PartialEq, Eq)]
pub struct RetryBudget {
    /// Deadline of the whole campaign, counted from its start.
    pub total_timeout_ms: u64,
    /// Longest time one attempt may run.
    pub attempt_timeout_ms: u64,
    /// Spacing between the end of a failed attempt and the next one.
    pub poll_interval_ms: u64,
}

/// Why one attempt failed.
#[derive(Clone, Debug, PartialEq, Eq)]
pub enum AttemptError<E> {
    /// The check itself reported a failure.
    Failed(E),
    /// The attempt ran out of time before the check completed.
    AttemptTimedOut,
}

/// How a campaign ended.
#[derive(Clone, Debug, PartialEq, Eq)]
pub enum RetryOutcome<T, E> {
    /// An attempt succeeded with this value.
    Success(T),
    /// The deadline passed; this is the cause of the last failed attempt, if
    /// any attempt ran.
    TimedOut(Option<AttemptError<E>>),
}

/// The error a timed out campaign turns into.
#[derive(Clone, Debug, PartialEq, Eq)]
pub struct RetryTimeoutError<E> {
    pub last_error: Option<AttemptError<E>>,
}

/// What the caller observed since the last action.
#[derive(Clone, Debug, PartialEq, Eq)]
pub enum RetryEvent<T, E> {
    /// The campaign was just started, or the last pause is over.
    Ready,
    /// The attempt in flight succeeded.
    Succeeded(T),
    /// The attempt in flight failed.
    Failed(E),
    /// The attempt in flight was abandoned when its time limit elapsed.
    AttemptTimedOut,
}

/// What the caller is to do next.
#[derive(Clone, Debug, PartialEq, Eq)]
pub enum RetryAction<T, E> {
    /// Run the check once, abandoning it after `limit_ms`.
    Attempt { limit_ms: u64 },
    /// Wait `duration_ms`, then report `Ready`.
    Pause { duration_ms: u64 },
    /// The campaign is over.
    Finish(RetryOutcome<T, E>),
}

/// One retry campaign in progress.
pub struct RetryCampaign<E> {
    /// The instant, in the caller's milliseconds, at which the campaign ends.
    pub deadline_ms: u64,
    pub attempt_timeout_ms: u64,
    pub poll_interval_ms: u64,
    /// Cause of the most recent failed attempt.
    pub last_error: Option<AttemptError<E>>,
}

pub open spec fn min_u64(a: u64, b: u64) -> u64 {
    if a <= b {
        a
    } else {
        b
    }
}

/// `started_at + total`, held at `u64::MAX` where the sum does not fit.
pub open spec fn deadline_after(started_at: u64, total: u64) -> u64 {
    if started_at + total <= u64::MAX {
        (started_at + total) as u64
    } else {
        u64::MAX
    }
}

impl<T, E> RetryOutcome<T, E> {
    pub open spec fn as_result(self) -> Result<T, RetryTimeoutError<E>> {
        match self {
            RetryOutcome::Success(v) => Ok(v),
            RetryOutcome::TimedOut(last_error) => Err(RetryTimeoutError { last_error }),
        }
    }

    /// `Ok` with the value of a success, or `Err` with the last failure cause.
    pub fn into_result(self) -> (r: Result<T, RetryTimeoutError<E>>)
        ensures
            r == self.as_result(),
    {
        match self {
            RetryOutcome::Success(v) => Ok(v),
            RetryOutcome::TimedOut(last_error) => Err(RetryTimeoutError { last_error }),
        }
    }
}

impl<E> RetryCampaign<E> {
    /// The campaign started at `now` with `budget`, before any attempt.
    pub open spec fn started(budget: RetryBudget, now: u64) -> Self {
        RetryCampaign {
            deadline_ms: deadline_after(now, budget.total_timeout_ms),
            attempt_timeout_ms: budget.attempt_timeout_ms,
            poll_interval_ms: budget.poll_interval_ms,
            last_error: None,
        }
    }

    /// No attempt may start at `now` or later.
    pub open spec fn is_expired(self, now: u64) -> bool {
        now >= self.deadline_ms
    }

    /// Time left before the deadline, zero once it has passed.
    pub open spec fn remaining(self, now: u64) -> u64 {
        if now < self.deadline_ms {
            (self.deadline_ms - now) as u64
        } else {
            0
        }
    }

    /// How long an attempt started at `now` may run: its own timeout, cut
    /// short by the deadline.
    pub open spec fn attempt_limit(self, now: u64) -> u64 {
        min_u64(self.attempt_timeout_ms, self.remaining(now))
    }

    /// How long to wait after an attempt failed at `now`: the poll interval,
    /// cut short by the deadline.
    pub open spec fn pause_after(self, now: u64) -> u64 {
        min_u64(self.poll_interval_ms, self.remaining(now))
    }

    pub open spec fn with_last_error(self, cause: Option<AttemptError<E>>) -> Self {
        RetryCampaign {
            deadline_ms: self.deadline_ms,
            attempt_timeout_ms: self.attempt_timeout_ms,
            poll_interval_ms: self.poll_interval_ms,
            last_error: cause,
        }
    }

    /// The decision taken on `event` at time `now`, and the state after it.
    pub open spec fn next<T>(self, event: RetryEvent<T, E>, now: u64) -> (Self, RetryAction<T, E>) {
        match event {
            RetryEvent::Ready => {
                if self.is_expired(now) {
                    (
                        self.with_last_error(None),
                        RetryAction::Finish(RetryOutcome::TimedOut(self.last_error)),
                    )
                } else {
                    (self, RetryAction::Attempt { limit_ms: self.attempt_limit(now) })
                }
            },
            RetryEvent::Succeeded(v) => (self, RetryAction::Finish(RetryOutcome::Success(v))),
            RetryEvent::Failed(e) => (
                self.with_last_error(Some(AttemptError::Failed(e))),
                RetryAction::Pause { duration_ms: self.pause_after(now) },
            ),
            RetryEvent::AttemptTimedOut => (
                self.with_last_error(Some(AttemptError::AttemptTimedOut)),
                RetryAction::Pause { duration_ms: self.pause_after(now) },
            ),
        }
    }

    /// Starts a campaign at time `now`. The caller reports `Ready` next.
    pub fn start(budget: RetryBudget, now: u64) -> (r: Self)
        ensures
            r == Self::started(budget, now),
    {
        let deadline_ms = if budget.total_timeout_ms <= u64::MAX - now {
            now + budget.total_timeout_ms
        } else {
            u64::MAX
        };
        RetryCampaign {
            deadline_ms,
            attempt_timeout_ms: budget.attempt_timeout_ms,
            poll_interval_ms: budget.poll_interval_ms,
            last_error: None,
        }
    }

    fn time_left(&self, now: u64) -> (r: u64)
        ensures
            r == self.remaining(now),
    {
        if now < self.deadline_ms {
            self.deadline_ms - now
        } else {
            0
        }
    }

    /// Takes the decision on `event`, observed at time `now`.
    ///
    /// On `Ready` the campaign finishes with the last failure cause once the
    /// deadline is reached, and otherwise starts an attempt bounded by both
    /// the attempt timeout and the deadline. A success finishes it at once,
    /// whatever the time. A failure is recorded and followed by a pause
    /// bounded by the deadline.
    pub fn step<T>(&mut self, event: RetryEvent<T, E>, now: u64) -> (action: RetryAction<T, E>)
        ensures
            (*final(self), action) == old(self).next(event, now),
    {
        match event {
            RetryEvent::Ready => {
                if now >= self.deadline_ms {
                    RetryAction::Finish(RetryOutcome::TimedOut(self.last_error.take()))
                } else {
                    let left = self.time_left(now);
                    let limit_ms = if self.attempt_timeout_ms <= left {
                        self.attempt_timeout_ms
                    } else {
                        left
                    };
                    RetryAction::Attempt { limit_ms }
                }
            },
            RetryEvent::Succeeded(v) => RetryAction::Finish(RetryOutcome::Success(v)),
            RetryEvent::Failed(e) => {
                self.last_error = Some(AttemptError::Failed(e));
                RetryAction::Pause { duration_ms: self.pause_duration(now) }
            },
            RetryEvent::AttemptTimedOut => {
                self.last_error = Some(AttemptError::AttemptTimedOut);
                RetryAction::Pause { duration_ms: self.pause_duration(now) }
            },
        }
    }

    fn pause_duration(&self, now: u64) -> (r: u64)
        ensures
            r == self.pause_after(now),
    {
        let left = self.time_left(now);
        if self.poll_interval_ms <= left {
            self.poll_interval_ms
        } else {
            left
        }
    }
}

/// The event that reports an attempt failed with `cause`.
pub open spec fn failure_event<T, E>(cause: AttemptError<E>) -> RetryEvent<T, E> {
    match cause {
        AttemptError::Failed(e) => RetryEvent::Failed(e),
        AttemptError::AttemptTimedOut => RetryEvent::AttemptTimedOut,
    }
}

impl<E> RetryCampaign<E> {
    /// The campaign after `causes.len()` failed attempts: before attempt `i`
    /// a `Ready` is observed at `ready_at[i]`, and the attempt fails with
    /// `causes[i]`, observed at `failed_at[i]`.
    pub open spec fn after_failed_attempts<T>(
        self,
        ready_at: Seq<u64>,
        failed_at: Seq<u64>,
        causes: Seq<AttemptError<E>>,
    ) -> Self
        decreases causes.len(),
    {
        if causes.len() == 0 {
            self
        } else {
            let n = causes.len() - 1;
            let before = self.after_failed_attempts::<T>(
                ready_at.take(n),
                failed_at.take(n),
                causes.take(n),
            );
            let attempting = before.next::<T>(RetryEvent::Ready, ready_at[n]).0;
            attempting.next::<T>(failure_event::<T, E>(causes[n]), failed_at[n]).0
        }
    }
}

/// Failed attempts change nothing but the last failure cause, and each of
/// them, begun before the deadline, is one attempt followed by one pause.
pub proof fn lemma_failed_attempts<T, E>(
    c: RetryCampaign<E>,
    ready_at: Seq<u64>,
    failed_at: Seq<u64>,
    causes: Seq<AttemptError<E>>,
)
    requires
        ready_at.len() == causes.len(),
        failed_at.len() == causes.len(),
        forall|i: int| 0 <= i < ready_at.len() ==> !c.is_expired(#[trigger] ready_at[i]),
    ensures
        ({
            let d = c.after_failed_attempts::<T>(ready_at, failed_at, causes);
            &&& d.deadline_ms == c.deadline_ms
            &&& d.attempt_timeout_ms == c.attempt_timeout_ms
            &&& d.poll_interval_ms == c.poll_interval_ms
            &&& d.last_error == if causes.len() == 0 {
                c.last_error
            } else {
                Some(causes.last())
            }
        }),
        forall|i: int|
            0 <= i < causes.len() ==> {
                let before = #[trigger] c.after_failed_attempts::<T>(
                    ready_at.take(i),
                    failed_at.take(i),
                    causes.take(i),
                );
                let (attempting, a) = before.next::<T>(RetryEvent::Ready, ready_at[i]);
                &&& a is Attempt
                &&& attempting.next::<T>(failure_event::<T, E>(causes[i]), failed_at[i]).1 is Pause
            },
    decreases causes.len(),
{
    if causes.len() > 0 {
        let n = causes.len() - 1;
        lemma_failed_attempts::<T, E>(c, ready_at.take(n), failed_at.take(n), causes.take(n));
        assert forall|i: int| 0 <= i < causes.len() implies {
            let before = #[trigger] c.after_failed_attempts::<T>(
                ready_at.take(i),
                failed_at.take(i),
                causes.take(i),
            );
            let (attempting, a) = before.next::<T>(RetryEvent::Ready, ready_at[i]);
            &&& a is Attempt
            &&& attempting.next::<T>(failure_event::<T, E>(causes[i]), failed_at[i]).1 is Pause
        } by {
            if i < n {
                assert(ready_at.take(n).take(i) =~= ready_at.take(i));
                assert(failed_at.take(n).take(i) =~= failed_at.take(i));
                assert(causes.take(n).take(i) =~= causes.take(i));
                assert(ready_at.take(n)[i] == ready_at[i]);
                assert(failed_at.take(n)[i] == failed_at[i]);
                assert(causes.take(n)[i] == causes[i]);
            } else {
                assert(!c.is_expired(ready_at[n]));
            }
        }
    }
}

/// A campaign whose check fails `causes.len()` times and then succeeds, every
/// attempt beginning before the deadline, runs the check exactly
/// `causes.len() + 1` times and finishes with the value of the success,
/// whatever the poll interval.
pub proof fn lemma_success_short_circuit<T, E>(
    c: RetryCampaign<E>,
    ready_at: Seq<u64>,
    failed_at: Seq<u64>,
    causes: Seq<AttemptError<E>>,
    last_ready_at: u64,
    succeeded_at: u64,
    value: T,
)
    requires
        ready_at.len() == causes.len(),
        failed_at.len() == causes.len(),
        forall|i: int| 0 <= i < ready_at.len() ==> !c.is_expired(#[trigger] ready_at[i]),
        !c.is_expired(last_ready_at),
    ensures
        forall|i: int|
            0 <= i < causes.len() ==> {
                let before = #[trigger] c.after_failed_attempts::<T>(
                    ready_at.take(i),
                    failed_at.take(i),
                    causes.take(i),
                );
                let (attempting, a) = before.next::<T>(RetryEvent::Ready, ready_at[i]);
                &&& a is Attempt
                &&& attempting.next::<T>(failure_event::<T, E>(causes[i]), failed_at[i]).1 is Pause
            },
        ({
            let d = c.after_failed_attempts::<T>(ready_at, failed_at, causes);
            let (attempting, a) = d.next::<T>(RetryEvent::Ready, last_ready_at);
            &&& a is Attempt
            &&& attempting.next::<T>(RetryEvent::Succeeded(value), succeeded_at).1
                == RetryAction::<T, E>::Finish(RetryOutcome::Success(value))
        }),
{
    lemma_failed_attempts::<T, E>(c, ready_at, failed_at, causes);
}

/// A campaign whose attempts failed with `causes`, and which then observes
/// the deadline, finishes timed out with the last of those causes.
pub proof fn lemma_last_error_reported<T, E>(
    c: RetryCampaign<E>,
    ready_at: Seq<u64>,
    failed_at: Seq<u64>,
    causes: Seq<AttemptError<E>>,
    expired_at: u64,
)
    requires
        causes.len() > 0,
        ready_at.len() == causes.len(),
        failed_at.len() == causes.len(),
        forall|i: int| 0 <= i < ready_at.len() ==> !c.is_expired(#[trigger] ready_at[i]),
        c.is_expired(expired_at),
    ensures
        c.after_failed_attempts::<T>(ready_at, failed_at, causes).next::<T>(
            RetryEvent::Ready,
            expired_at,
        ).1 == RetryAction::<T, E>::Finish(
            RetryOutcome::TimedOut(Some(causes.last())),
        ),
{
    lemma_failed_attempts::<T, E>(c, ready_at, failed_at, causes);
}

/// A campaign with a zero total timeout finishes timed out, with no failure
/// cause, on its first `Ready`, without starting an attempt.
pub proof fn lemma_zero_budget<T, E>(budget: RetryBudget, started_at: u64, now: u64)
    requires
        budget.total_timeout_ms == 0,
        started_at <= now,
    ensures
        RetryCampaign::<E>::started(budget, started_at).next::<T>(RetryEvent::Ready, now).1
            == RetryAction::<T, E>::Finish(RetryOutcome::TimedOut(None)),
{
}

/// No attempt starts at or after the deadline, an attempt never runs past it,
/// and a pause never ends after it unless it is a pause of zero length: so a
/// campaign whose check keeps failing ends once its deadline is reached.
/// The deadline is the start plus the total timeout, where that fits.
pub proof fn lemma_deadline_respected<T, E>(
    c: RetryCampaign<E>,
    event: RetryEvent<T, E>,
    now: u64,
)
    ensures
        ({
            let (d, a) = c.next(event, now);
            &&& d.deadline_ms == c.deadline_ms
            &&& (a matches RetryAction::Attempt { limit_ms } ==> event is Ready && now
                < c.deadline_ms && now + limit_ms <= c.deadline_ms)
            &&& (a matches RetryAction::Pause { duration_ms } ==> duration_ms == 0 || now
                + duration_ms <= c.deadline_ms)
            &&& (event is Ready && c.is_expired(now) ==> a is Finish)
        }),
        forall|budget: RetryBudget, started_at: u64|
            started_at + budget.total_timeout_ms <= u64::MAX ==> #[trigger] RetryCampaign::<
                E,
            >::started(budget, started_at).deadline_ms == started_at + budget.total_timeout_ms,
{
}

} // verus!
