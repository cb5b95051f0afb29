//! A value that refreshes itself on a timer.
//!
//! A cache is fresh, due or pending. It becomes due when its value is stale
//! and no job is outstanding; a due cache is refreshed inline, or, where a pool
//! is attached, by a job sent to the pool; while the job is outstanding the
//! cache is pending and its value is left alone.

use vstd::prelude::*;
use crate::clock::{expiry, is_stale, now, stale_at};
use crate::threadpool::{job_message, JobsSender, ResultsReceiver, ResultsSender};

verus! {

/// What a cache is, apart from the function that computes its value.
pub struct CacheState<T> {
    /// The value last computed, or the initial one.
    pub value: T,
    /// When the value was last written, if ever.
    pub last_update: Option<u128>,
    /// How long a value stays fresh; `None` for a value computed only once.
    pub interval: Option<u128>,
    /// Whether there is a function that computes the value. Without one a
    /// refresh keeps the value and only notes the time.
    pub computed: bool,
    /// Whether refreshes go through a pool.
    pub pooled: bool,
    /// Whether a job is outstanding.
    pub pending: bool,
}

/// What a cache has to do next.
#[derive(Clone, Copy, Debug, PartialEq, Eq, Structural)]
pub enum Action {
    /// Nothing: the value is fresh, or a job is outstanding already.
    Keep,
    /// Look for the result of the outstanding job.
    Poll,
    /// Compute the value here and now.
    Inline,
    /// Send a job to the pool.
    Dispatch,
}

impl<T> CacheState<T> {
    /// Due: no job is outstanding and the value is stale at `now`.
    pub open spec fn is_due(self, now: u128) -> bool {
        !self.pending && is_stale(self.last_update, self.interval, now)
    }

    /// The time after which the cache is due, as seen at `now`: at once when
    /// it was never refreshed, never when a job is outstanding or when the
    /// value is computed only once.
    pub open spec fn deadline(self, now: u128) -> Option<u128> {
        if self.pending {
            None
        } else {
            match self.last_update {
                None => Some(now),
                Some(since) => match self.interval {
                    None => None,
                    Some(span) => Some(expiry(since, span)),
                },
            }
        }
    }

    /// What a forced refresh does: nothing while a job is outstanding,
    /// otherwise a job for the pool, where there is one and something to
    /// compute, or a refresh on the spot.
    pub open spec fn forced(self) -> Action {
        if self.pending {
            Action::Keep
        } else if self.pooled && self.computed {
            Action::Dispatch
        } else {
            Action::Inline
        }
    }

    /// What a scheduled refresh does at `now`: a pending cache looks for its
    /// result, a due one refreshes as if forced, a fresh one rests.
    pub open spec fn scheduled(self, now: u128) -> Action {
        if self.pending {
            Action::Poll
        } else if is_stale(self.last_update, self.interval, now) {
            self.forced()
        } else {
            Action::Keep
        }
    }

    /// The state after `value` was written at `now`.
    pub open spec fn refreshed(self, value: T, now: u128) -> Self {
        CacheState { value, last_update: Some(now), ..self }
    }

    /// The state after the outstanding job was polled at `now`: its result, if
    /// one was there, is written and the cache is no longer pending.
    pub open spec fn received(self, polled: Option<T>, now: u128) -> Self {
        match polled {
            Some(value) => CacheState { value, last_update: Some(now), pending: false, ..self },
            None => self,
        }
    }

    /// The state after a job was handed to the pool: pending if the pool took
    /// it, and without a pool from now on if the pool is gone.
    pub open spec fn dispatched(self, sent: bool) -> Self {
        if sent {
            CacheState { pending: true, ..self }
        } else {
            CacheState { pooled: false, ..self }
        }
    }

    /// The state after a pool was attached. A job that was outstanding can no
    /// longer answer, so the cache is not pending.
    pub open spec fn attached(self) -> Self {
        CacheState { pooled: true, pending: false, ..self }
    }

    /// Whether `post` is a state that carrying out `action` on `self` may
    /// leave, where `compute` is the function that computes the value, if
    /// there is one, and `at` the time noted for what is written.
    pub open spec fn leads_to<F: Fn() -> T>(
        self,
        action: Action,
        post: Self,
        compute: Option<F>,
        at: u128,
    ) -> bool {
        match action {
            Action::Keep => post == self,
            Action::Poll => exists|polled: Option<T>| post == #[trigger] self.received(polled, at),
            Action::Inline => {
                &&& match compute {
                    Some(f) => call_ensures(f, (), post.value),
                    None => post.value == self.value,
                }
                &&& post == self.refreshed(post.value, at)
            },
            Action::Dispatch => post == self.dispatched(true) || post == self.dispatched(false),
        }
    }

    /// Whether `post` is a state that a scheduled refresh of `self` may leave:
    /// what it does is decided at some time, and what it writes is noted at
    /// some time.
    pub open spec fn scheduled_to<F: Fn() -> T>(self, post: Self, compute: Option<F>) -> bool {
        exists|seen: u128, at: u128| #[trigger] self.leads_to(self.scheduled(seen), post, compute, at)
    }

    /// Whether `post` is a state that a forced refresh of `self` may leave.
    pub open spec fn forced_to<F: Fn() -> T>(self, post: Self, compute: Option<F>) -> bool {
        exists|at: u128| #[trigger] self.leads_to(self.forced(), post, compute, at)
    }
}

/// A cache with no job outstanding, whose value was written at `since` and
/// stays fresh for `span`, is due at exactly the times later than
/// `since + span`: not yet at `since + span` itself, and at every time after
/// it.
pub proof fn lemma_staleness_boundary<T>(state: CacheState<T>, since: u128, span: u128, now: u128)
    requires
        state.last_update == Some(since),
        state.interval == Some(span),
        !state.pending,
    ensures
        state.is_due(now) <==> now > since + span,
        state.scheduled(now) == Action::Keep <==> now <= since + span,
        state.deadline(now) == Some(expiry(since, span)),
{
}

/// While a job is outstanding no refresh sends another: a forced refresh does
/// nothing, a scheduled one only looks for the result, the cache is not due
/// and has no deadline, and a poll that finds nothing leaves it as it was.
pub proof fn lemma_single_outstanding_job<T, F: Fn() -> T>(
    state: CacheState<T>,
    after: CacheState<T>,
    compute: Option<F>,
    now: u128,
)
    requires
        state.pending,
    ensures
        state.forced() == Action::Keep,
        state.scheduled(now) == Action::Poll,
        !state.is_due(now),
        state.deadline(now) is None,
        state.received(None, now) == state,
        state.forced_to(after, compute) ==> after == state,
{
}

/// While a job is outstanding the value is left alone: what a refresh, forced
/// or scheduled, leaves behind is the state as it was, or the state with the
/// job's result written, which ends the wait.
pub proof fn lemma_pending_value_untouched<T, F: Fn() -> T>(
    state: CacheState<T>,
    after: CacheState<T>,
    compute: Option<F>,
)
    requires
        state.pending,
        state.scheduled_to(after, compute) || state.forced_to(after, compute),
    ensures
        after == state || exists|value: T, at: u128| after == #[trigger] state.received(Some(value), at),
{
    if state.scheduled_to(after, compute) {
        let (seen, at) = choose|seen: u128, at: u128| #[trigger]
            state.leads_to(state.scheduled(seen), after, compute, at);
        let polled = choose|polled: Option<T>| after == #[trigger] state.received(polled, at);
        if polled is Some {
            assert(after == state.received(Some(polled.unwrap()), at));
        }
    }
}

/// A job is outstanding only where a pool is attached, and no refresh, forced
/// or scheduled, changes that.
pub proof fn lemma_pending_only_with_pool<T, F: Fn() -> T>(
    state: CacheState<T>,
    after: CacheState<T>,
    compute: Option<F>,
)
    requires
        state.pending ==> state.pooled,
        state.scheduled_to(after, compute) || state.forced_to(after, compute),
    ensures
        after.pending ==> after.pooled,
        after.interval == state.interval,
        after.computed == state.computed,
{
}

/// The time to note for what is written: `stamp` where one is given, the
/// clock's time otherwise.
fn read(stamp: Option<u128>) -> (at: u128)
    ensures
        stamp matches Some(given) ==> at == given,
{
    match stamp {
        Some(given) => given,
        None => now(),
    }
}

/// The time to report where nothing was written: `stamp` where one is given.
/// The clock is left alone.
fn unread(stamp: Option<u128>) -> (at: u128)
    ensures
        stamp matches Some(given) ==> at == given,
{
    match stamp {
        Some(given) => given,
        None => 0,
    }
}

/// A self-updating cache on a timer.
///
/// A cache evaluates in the background once a pool has been attached with
/// `attach_threadpool`, and on the spot otherwise.
#[verifier::reject_recursive_types(T)]
#[verifier::reject_recursive_types(F)]
pub struct TimedCache<T, F> {
    value: T,
    function: Option<F>,
    last_update: Option<u128>,
    update_interval: Option<u128>,
    jobs_tx: Option<JobsSender<T, F>>,
    results_tx: Option<ResultsSender<T>>,
    results_rx: Option<ResultsReceiver<T>>,
    waiting: bool,
}

impl<T, F> View for TimedCache<T, F> {
    type V = CacheState<T>;

    closed spec fn view(&self) -> CacheState<T> {
        CacheState {
            value: self.value,
            last_update: self.last_update,
            interval: self.update_interval,
            computed: self.function.is_some(),
            pooled: self.jobs_tx.is_some(),
            pending: self.waiting,
        }
    }
}

impl<T, F: Fn() -> T + Copy> TimedCache<T, F> {
    /// The function that computes the value, if there is one.
    pub closed spec fn compute(&self) -> Option<F> {
        self.function
    }

    /// The function may be called, the three channel ends are there together
    /// or not at all, and a job is outstanding only where a pool is attached.
    pub closed spec fn wf(&self) -> bool {
        &&& self.function matches Some(f) ==> call_requires(f, ())
        &&& self.jobs_tx.is_some() == self.results_tx.is_some()
        &&& self.jobs_tx.is_some() == self.results_rx.is_some()
        &&& self.waiting ==> self.jobs_tx.is_some()
    }

    /// A job is outstanding only where a pool is attached.
    pub proof fn lemma_pending_implies_pooled(&self)
        requires
            self.wf(),
        ensures
            self@.pending ==> self@.pooled,
    {
    }

    /// A cache that starts from `initial` and has never been refreshed.
    pub fn with_initial_value(initial: T, update_interval: Option<u128>, f: F) -> (cache: Self)
        requires
            call_requires(f, ()),
        ensures
            cache.wf(),
            cache.compute() == Some(f),
            cache@ == (CacheState {
                value: initial,
                last_update: None,
                interval: update_interval,
                computed: true,
                pooled: false,
                pending: false,
            }),
    {
        Self {
            value: initial,
            function: Some(f),
            last_update: None,
            update_interval,
            jobs_tx: None,
            results_tx: None,
            results_rx: None,
            waiting: false,
        }
    }

    /// A cache that starts from the default value of its type and has never
    /// been refreshed.
    pub fn new(update_interval: Option<u128>, f: F) -> (cache: Self) where T: Default
        requires
            call_requires(f, ()),
        ensures
            cache.wf(),
            cache.compute() == Some(f),
            cache@.last_update is None,
            cache@.interval == update_interval,
            cache@.computed,
            !cache@.pooled,
            !cache@.pending,
    {
        Self::with_initial_value(T::default(), update_interval, f)
    }

    /// A cache that holds `initial` and has nothing to compute: a refresh
    /// keeps the value and only notes the time.
    pub fn constant(initial: T, update_interval: Option<u128>) -> (cache: Self)
        ensures
            cache.wf(),
            cache.compute() == None::<F>,
            cache@ == (CacheState {
                value: initial,
                last_update: None,
                interval: update_interval,
                computed: false,
                pooled: false,
                pending: false,
            }),
    {
        Self {
            value: initial,
            function: None,
            last_update: None,
            update_interval,
            jobs_tx: None,
            results_tx: None,
            results_rx: None,
            waiting: false,
        }
    }

    /// Replaces the function that computes the value.
    pub fn set_function(&mut self, f: F)
        requires
            old(self).wf(),
            call_requires(f, ()),
        ensures
            final(self).wf(),
            final(self).compute() == Some(f),
            final(self)@ == (CacheState { computed: true, ..old(self)@ }),
    {
        self.function = Some(f);
    }

    /// Replaces the interval after which a value is stale.
    pub fn set_update_interval(&mut self, update_interval: Option<u128>)
        requires
            old(self).wf(),
        ensures
            final(self).wf(),
            final(self).compute() == old(self).compute(),
            final(self)@ == (CacheState { interval: update_interval, ..old(self)@ }),
    {
        self.update_interval = update_interval;
    }

    /// Refreshes the cache as `update` does and hands out the value.
    pub fn get(&mut self) -> (value: &T)
        requires
            old(self).wf(),
        ensures
            final(self).wf(),
            final(self).compute() == old(self).compute(),
            old(self)@.scheduled_to(final(self)@, old(self).compute()),
            *value == final(self)@.value,
    {
        self.update();
        &self.value
    }

    /// Refreshes the cache as `update` does and lends the value out for
    /// writing. What the borrower writes is the cache's value afterwards; the
    /// time of the last refresh is not touched by it.
    pub fn get_mut(&mut self) -> (value: &mut T)
        requires
            old(self).wf(),
        ensures
            final(self).wf(),
            final(self).compute() == old(self).compute(),
            old(self)@.scheduled_to(CacheState { value: *value, ..final(self)@ }, old(self).compute()),
            final(self)@.value == *final(value),
    {
        self.update();
        &mut self.value
    }

    /// The value as it stands, without a refresh.
    pub fn value(&self) -> (value: &T)
        ensures
            *value == self@.value,
    {
        &self.value
    }

    /// When the value was last written, if ever.
    pub fn last_update(&self) -> (at: Option<u128>)
        ensures
            at == self@.last_update,
    {
        self.last_update
    }

    /// Whether a job is outstanding.
    pub fn is_pending(&self) -> (pending: bool)
        ensures
            pending == self@.pending,
    {
        self.waiting
    }

    /// Whether the cache is due at `now`.
    pub fn needs_update_at(&self, now: u128) -> (due: bool)
        ensures
            due == self@.is_due(now),
    {
        !self.waiting && stale_at(self.last_update, self.update_interval, now)
    }

    /// The time after which the cache is due, as seen at `now`.
    pub fn next_update_at(&self, now: u128) -> (deadline: Option<u128>)
        ensures
            deadline == self@.deadline(now),
    {
        if self.waiting {
            None
        } else {
            match self.last_update {
                None => Some(now),
                Some(since) => match self.update_interval {
                    None => None,
                    Some(span) => Some(since.saturating_add(span)),
                },
            }
        }
    }

    /// The time after which the cache is due, as seen on the clock.
    pub fn next_update(&self) -> (deadline: Option<u128>)
        ensures
            exists|at: u128| deadline == #[trigger] self@.deadline(at),
    {
        let at = now();
        self.next_update_at(at)
    }

    /// What a forced refresh has to do.
    pub fn forced(&self) -> (action: Action)
        ensures
            action == self@.forced(),
    {
        if self.waiting {
            Action::Keep
        } else if self.jobs_tx.is_some() && self.function.is_some() {
            Action::Dispatch
        } else {
            Action::Inline
        }
    }

    /// What a scheduled refresh has to do at `now`.
    pub fn scheduled_at(&self, now: u128) -> (action: Action)
        ensures
            action == self@.scheduled(now),
    {
        if self.waiting {
            Action::Poll
        } else if stale_at(self.last_update, self.update_interval, now) {
            self.forced()
        } else {
            Action::Keep
        }
    }

    /// Writes `value` as computed at `now`.
    pub fn overwrite_at(&mut self, value: T, now: u128)
        requires
            old(self).wf(),
        ensures
            final(self).wf(),
            final(self).compute() == old(self).compute(),
            final(self)@ == old(self)@.refreshed(value, now),
    {
        self.value = value;
        self.last_update = Some(now);
    }

    /// Writes `value` and stamps it with the clock's time.
    pub fn overwrite(&mut self, value: T)
        requires
            old(self).wf(),
        ensures
            final(self).wf(),
            final(self).compute() == old(self).compute(),
            exists|at: u128| final(self)@ == #[trigger] old(self)@.refreshed(value, at),
    {
        let at = now();
        self.overwrite_at(value, at);
    }

    /// Takes in what a poll for the outstanding job's result gave at `now`.
    pub fn receive(&mut self, polled: Option<T>, now: u128)
        requires
            old(self).wf(),
        ensures
            final(self).wf(),
            final(self).compute() == old(self).compute(),
            final(self)@ == old(self)@.received(polled, now),
    {
        match polled {
            Some(value) => {
                self.value = value;
                self.last_update = Some(now);
                self.waiting = false;
            },
            None => {},
        }
    }

    /// Takes in whether the pool took the job that was sent to it. A job is
    /// sent only where none is outstanding, and taken only by a pool.
    pub fn dispatched(&mut self, sent: bool)
        requires
            old(self).wf(),
            !old(self)@.pending,
            sent ==> old(self)@.pooled,
        ensures
            final(self).wf(),
            final(self).compute() == old(self).compute(),
            final(self)@ == old(self)@.dispatched(sent),
    {
        if sent {
            self.waiting = true;
        } else {
            self.jobs_tx = None;
            self.results_tx = None;
            self.results_rx = None;
        }
    }

    /// Carries out `action`, which a caller got from `forced` or
    /// `scheduled_at`. What is written is noted at `stamp`, or at the clock's
    /// time where there is none. Returns the time noted, which says nothing
    /// where nothing was written.
    fn carry_out(&mut self, action: Action, stamp: Option<u128>) -> (at: u128)
        requires
            old(self).wf(),
            action == Action::Poll ==> old(self)@.pending,
            action == Action::Dispatch ==> !old(self)@.pending,
            action == Action::Inline ==> !old(self)@.pending,
        ensures
            final(self).wf(),
            final(self).compute() == old(self).compute(),
            stamp matches Some(given) ==> at == given,
            old(self)@.leads_to(action, final(self)@, old(self).compute(), at),
    {
        match action {
            Action::Keep => unread(stamp),
            Action::Poll => {
                let polled = match &self.results_rx {
                    Some(rx) => match rx.try_recv() {
                        Ok(packet) => Some(packet.result),
                        Err(_) => None,
                    },
                    None => None,
                };
                let at = match polled {
                    Some(_) => read(stamp),
                    None => unread(stamp),
                };
                self.receive(polled, at);
                assert(self@ == old(self)@.received(polled, at));
                at
            },
            Action::Inline => {
                match self.function {
                    Some(f) => {
                        let value = f();
                        self.value = value;
                    },
                    None => {},
                }
                let at = read(stamp);
                self.last_update = Some(at);
                at
            },
            Action::Dispatch => {
                let sent = match (&self.jobs_tx, &self.results_tx, self.function) {
                    (Some(jobs_tx), Some(results_tx), Some(f)) => {
                        let message = job_message(f, results_tx.clone());
                        jobs_tx.send(message).is_ok()
                    },
                    _ => false,
                };
                self.dispatched(sent);
                unread(stamp)
            },
        }
    }

    /// Refreshes the cache if it is due at `now`, or looks for the result of
    /// the outstanding job; what is written is noted at `now`.
    pub fn update_at(&mut self, now: u128)
        requires
            old(self).wf(),
        ensures
            final(self).wf(),
            final(self).compute() == old(self).compute(),
            old(self)@.leads_to(old(self)@.scheduled(now), final(self)@, old(self).compute(), now),
    {
        let action = self.scheduled_at(now);
        let _ = self.carry_out(action, Some(now));
    }

    /// Refreshes the cache if it is due on the clock, or looks for the result
    /// of the outstanding job.
    pub fn update(&mut self)
        requires
            old(self).wf(),
        ensures
            final(self).wf(),
            final(self).compute() == old(self).compute(),
            old(self)@.scheduled_to(final(self)@, old(self).compute()),
    {
        let seen = now();
        let action = self.scheduled_at(seen);
        let at = self.carry_out(action, None);
        assert(old(self)@.leads_to(old(self)@.scheduled(seen), self@, old(self).compute(), at));
    }

    /// Refreshes the cache whatever its age and notes `now` for what is
    /// written. While a job is outstanding this does nothing, so that no
    /// second job is ever sent.
    pub fn update_now_at(&mut self, now: u128)
        requires
            old(self).wf(),
        ensures
            final(self).wf(),
            final(self).compute() == old(self).compute(),
            old(self)@.leads_to(old(self)@.forced(), final(self)@, old(self).compute(), now),
            old(self)@.pending ==> final(self)@ == old(self)@,
    {
        let action = self.forced();
        let _ = self.carry_out(action, Some(now));
    }

    /// Refreshes the cache whatever its age. While a job is outstanding this
    /// does nothing, so that no second job is ever sent.
    pub fn update_now(&mut self)
        requires
            old(self).wf(),
        ensures
            final(self).wf(),
            final(self).compute() == old(self).compute(),
            old(self)@.forced_to(final(self)@, old(self).compute()),
            old(self)@.pending ==> final(self)@ == old(self)@,
    {
        let action = self.forced();
        let at = self.carry_out(action, None);
        assert(old(self)@.leads_to(old(self)@.forced(), self@, old(self).compute(), at));
    }

    /// Attaches a pool: from now on refreshes are sent to `jobs_tx`, and their
    /// results come back on a channel of the cache's own that holds one
    /// result.
    pub fn attach_threadpool(&mut self, jobs_tx: JobsSender<T, F>)
        requires
            old(self).wf(),
        ensures
            final(self).wf(),
            final(self).compute() == old(self).compute(),
            final(self)@ == old(self)@.attached(),
    {
        let (results_tx, results_rx) = flume::bounded(1);
        self.jobs_tx = Some(jobs_tx);
        self.results_tx = Some(results_tx);
        self.results_rx = Some(results_rx);
        self.waiting = false;
    }
}

} // verus!
