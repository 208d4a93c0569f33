//! The control loop: multiplicative decrease on backpressure, additive
//! increase on low-latency fully-utilized successes.
//!
//! Limits are real-valued in the control law; here they are carried in
//! fixed-point thousandths of a permit (`LIMIT_SCALE`), so one whole permit
//! is `1000` and a decrease ratio of nine tenths is `900`. Latencies are in
//! nanoseconds.

use vstd::math::{max, min};
use vstd::prelude::*;

use crate::outcome::Outcome;
use crate::pool::{Acquired, PermitPool, MAX_CAPACITY};

verus! {

/// One whole permit, in the fixed-point scale limits are carried in.
pub const LIMIT_SCALE: u64 = 1000;

/// Upper bound on `max_limit_milli`. It keeps `limit * decrease_ratio` and
/// `limit + increase_step` far from the integer limit, and rounds to exactly
/// [`MAX_CAPACITY`] whole permits.
pub const MAX_LIMIT_MILLI: u64 = 1_000_000_000_000;

/// Tunables for the control loop. Limits and steps are in fixed-point
/// thousandths of a permit; the relaxation allowance is in nanoseconds.
#[derive(Clone, Copy, Debug)]
pub struct Settings {
    /// Starting value for the concurrency limit.
    pub initial_limit_milli: u64,
    /// Floor for the limit; at least one whole permit.
    pub min_limit_milli: u64,
    /// Ceiling for the limit.
    pub max_limit_milli: u64,
    /// Multiplicative factor applied on a backpressure signal, in
    /// thousandths; strictly between zero and one whole.
    pub decrease_ratio_milli: u64,
    /// Additive step applied on a low-latency, fully-utilized success.
    pub increase_step_milli: u64,
    /// How far the latency baseline may rise on one slow sample.
    pub baseline_relaxation_nanos: u64,
}

impl Settings {
    /// What a usable configuration looks like: the floor is at least one
    /// whole permit, the starting limit sits between floor and ceiling, the
    /// ceiling is within range, the decrease ratio is a proper fraction, and
    /// the increase step is positive and within range.
    pub open spec fn valid(self) -> bool {
        &&& LIMIT_SCALE <= self.min_limit_milli
        &&& self.min_limit_milli <= self.initial_limit_milli
        &&& self.initial_limit_milli <= self.max_limit_milli
        &&& self.max_limit_milli <= MAX_LIMIT_MILLI
        &&& 1 <= self.decrease_ratio_milli < LIMIT_SCALE
        &&& 1 <= self.increase_step_milli <= MAX_LIMIT_MILLI
    }

    /// Decides [`Settings::valid`].
    pub fn is_valid(&self) -> (r: bool)
        ensures
            r == self.valid(),
    {
        LIMIT_SCALE <= self.min_limit_milli && self.min_limit_milli <= self.initial_limit_milli
            && self.initial_limit_milli <= self.max_limit_milli
            && self.max_limit_milli <= MAX_LIMIT_MILLI && 1 <= self.decrease_ratio_milli
            && self.decrease_ratio_milli < LIMIT_SCALE && 1 <= self.increase_step_milli
            && self.increase_step_milli <= MAX_LIMIT_MILLI
    }
}

impl Default for Settings {
    /// Defaults: start at five permits with floor one and ceiling one
    /// thousand; cut to nine tenths on backpressure; grow by one permit at a
    /// time; let the baseline rise by at most a tenth of a millisecond per
    /// slow sample.
    fn default() -> (s: Settings)
        ensures
            s.valid(),
            s == (Settings {
                initial_limit_milli: 5000,
                min_limit_milli: 1000,
                max_limit_milli: 1_000_000,
                decrease_ratio_milli: 900,
                increase_step_milli: 1000,
                baseline_relaxation_nanos: 100_000,
            }),
    {
        Settings {
            initial_limit_milli: 5000,
            min_limit_milli: 1000,
            max_limit_milli: 1_000_000,
            decrease_ratio_milli: 900,
            increase_step_milli: 1000,
            baseline_relaxation_nanos: 100_000,
        }
    }
}

/// Nearest whole number of permits for a fixed-point limit.
pub open spec fn spec_round_to_capacity(limit_milli: int) -> int {
    (limit_milli + (LIMIT_SCALE as int) / 2) / (LIMIT_SCALE as int)
}

/// The limit after a backpressure signal: a multiplicative cut, clamped to
/// the floor. The cut is unconditional — one overload signal always lowers
/// the limit (or pins it at the floor).
pub open spec fn spec_backpressure_next_limit(limit: int, min_limit: int, ratio_milli: int) -> int {
    max(min_limit, limit * ratio_milli / (LIMIT_SCALE as int))
}

/// The limit after a success that found low queueing on a fully-utilized
/// pool: an additive raise, clamped to the ceiling.
pub open spec fn spec_increase_next_limit(limit: int, max_limit: int, step: int) -> int {
    min(max_limit, limit + step)
}

/// Whether an observed latency is close enough to the baseline to show that
/// requests are not queueing: at most a tenth above it.
pub open spec fn spec_low_queueing(elapsed: int, baseline: int) -> bool {
    elapsed <= baseline + baseline / 10
}

/// The baseline after a success sample: it drops at once to a faster sample,
/// and rises toward a slower one by at most the relaxation allowance — never
/// abruptly from a single sample.
pub open spec fn spec_next_baseline(baseline: int, elapsed: int, relaxation: int) -> int {
    if elapsed <= baseline {
        elapsed
    } else {
        min(baseline + relaxation, elapsed)
    }
}

/// The control-loop state and the permit pool it governs.
///
/// One controller is shared by every request in flight against one service
/// instance; its scalar state is mutated only inside [`Controller::feedback`],
/// one application at a time.
#[derive(Debug)]
pub struct Controller {
    /// Concurrency target, fixed-point thousandths, within the configured
    /// bounds.
    pub limit_milli: u64,
    /// Floor for the limit.
    pub min_limit_milli: u64,
    /// Ceiling for the limit.
    pub max_limit_milli: u64,
    /// Multiplicative factor applied on backpressure, in thousandths.
    pub decrease_ratio_milli: u64,
    /// Additive step applied on a gated increase.
    pub increase_step_milli: u64,
    /// How far the baseline may rise on one slow sample, nanoseconds.
    pub baseline_relaxation_nanos: u64,
    /// Round-trip time believed achievable without queueing; unset until the
    /// first success is observed.
    pub rtt_baseline_nanos: Option<u64>,
    /// The permit pool; its capacity follows the rounded limit.
    pub pool: PermitPool,
}

impl Controller {
    /// The controller's invariant: the limit sits between its configured
    /// bounds, the tunables are in range, the pool is well formed, and the
    /// pool's capacity is the limit rounded to whole permits.
    pub open spec fn wf(self) -> bool {
        &&& LIMIT_SCALE <= self.min_limit_milli <= self.limit_milli <= self.max_limit_milli
            <= MAX_LIMIT_MILLI
        &&& 1 <= self.decrease_ratio_milli < LIMIT_SCALE
        &&& 1 <= self.increase_step_milli <= MAX_LIMIT_MILLI
        &&& self.pool.wf()
        &&& self.pool.capacity == spec_round_to_capacity(self.limit_milli as int)
    }

    /// The baseline a feedback measures against: the recorded one, or the
    /// sample itself when no success has been recorded yet.
    pub open spec fn spec_effective_baseline(self, elapsed_nanos: u64) -> int {
        match self.rtt_baseline_nanos {
            Some(b) => b as int,
            None => elapsed_nanos as int,
        }
    }

    /// The limit one feedback application leaves behind: backpressure cuts
    /// multiplicatively; a success raises additively when latency shows low
    /// queueing and the pool was fully utilized when the request was
    /// admitted; everything else holds the limit.
    pub open spec fn spec_feedback_next_limit(
        self,
        elapsed_nanos: u64,
        outcome: Outcome,
        pool_was_full: bool,
    ) -> int {
        match outcome {
            Outcome::BackpressureSignal => spec_backpressure_next_limit(
                self.limit_milli as int,
                self.min_limit_milli as int,
                self.decrease_ratio_milli as int,
            ),
            Outcome::Success => {
                if spec_low_queueing(
                    elapsed_nanos as int,
                    self.spec_effective_baseline(elapsed_nanos),
                ) && pool_was_full {
                    spec_increase_next_limit(
                        self.limit_milli as int,
                        self.max_limit_milli as int,
                        self.increase_step_milli as int,
                    )
                } else {
                    self.limit_milli as int
                }
            },
            Outcome::OtherError => self.limit_milli as int,
        }
    }

    /// The baseline one feedback application leaves behind: only a success
    /// contributes a latency sample.
    pub open spec fn spec_feedback_next_baseline(self, elapsed_nanos: u64, outcome: Outcome) -> Option<
        u64,
    > {
        if outcome is Success {
            Some(
                spec_next_baseline(
                    self.spec_effective_baseline(elapsed_nanos),
                    elapsed_nanos as int,
                    self.baseline_relaxation_nanos as int,
                ) as u64,
            )
        } else {
            self.rtt_baseline_nanos
        }
    }

    /// The whole controller one feedback application leaves behind: the new
    /// limit and baseline, and the pool resized to the new limit rounded to
    /// whole permits — its issued count untouched.
    pub open spec fn spec_feedback_next(
        self,
        elapsed_nanos: u64,
        outcome: Outcome,
        pool_was_full: bool,
    ) -> Controller {
        let next_limit = self.spec_feedback_next_limit(elapsed_nanos, outcome, pool_was_full);
        let next_capacity = spec_round_to_capacity(next_limit);
        Controller {
            limit_milli: next_limit as u64,
            rtt_baseline_nanos: self.spec_feedback_next_baseline(elapsed_nanos, outcome),
            pool: PermitPool {
                capacity: next_capacity as u64,
                issued: self.pool.issued,
                issued_at_last_shrink: if next_capacity < self.pool.capacity {
                    self.pool.issued
                } else {
                    self.pool.issued_at_last_shrink
                },
                shut_down: self.pool.shut_down,
            },
            ..self
        }
    }

    /// A fresh controller over the given settings, with an empty pool sized
    /// to the starting limit and no latency sample yet.
    pub fn new(settings: Settings) -> (c: Controller)
        requires
            settings.valid(),
        ensures
            c.wf(),
            c.limit_milli == settings.initial_limit_milli,
            c.min_limit_milli == settings.min_limit_milli,
            c.max_limit_milli == settings.max_limit_milli,
            c.decrease_ratio_milli == settings.decrease_ratio_milli,
            c.increase_step_milli == settings.increase_step_milli,
            c.baseline_relaxation_nanos == settings.baseline_relaxation_nanos,
            c.rtt_baseline_nanos is None,
            c.pool.issued == 0,
            c.pool.issued_at_last_shrink == 0,
            !c.pool.shut_down,
            c.pool.capacity == spec_round_to_capacity(settings.initial_limit_milli as int),
    {
        let capacity = round_to_capacity(settings.initial_limit_milli);
        Controller {
            limit_milli: settings.initial_limit_milli,
            min_limit_milli: settings.min_limit_milli,
            max_limit_milli: settings.max_limit_milli,
            decrease_ratio_milli: settings.decrease_ratio_milli,
            increase_step_milli: settings.increase_step_milli,
            baseline_relaxation_nanos: settings.baseline_relaxation_nanos,
            rtt_baseline_nanos: None,
            pool: PermitPool::new(capacity),
        }
    }

    /// Requests admission from the pool; the scalar control state is
    /// untouched. See [`PermitPool::try_acquire`].
    pub fn try_acquire(&mut self) -> (r: Acquired)
        requires
            old(self).wf(),
        ensures
            final(self).wf(),
            *final(self) == (Controller { pool: final(self).pool, ..*old(self) }),
            final(self).pool.capacity == old(self).pool.capacity,
            final(self).pool.issued_at_last_shrink == old(self).pool.issued_at_last_shrink,
            final(self).pool.shut_down == old(self).pool.shut_down,
            old(self).pool.shut_down ==> r is ShutDown
                && final(self).pool.issued == old(self).pool.issued,
            !old(self).pool.shut_down && old(self).pool.issued < old(self).pool.capacity ==> {
                &&& final(self).pool.issued == old(self).pool.issued + 1
                &&& r matches Acquired::Granted(p)
                    && p.spec_pool_was_full()
                        == (final(self).pool.issued == final(self).pool.capacity)
            },
            !old(self).pool.shut_down && old(self).pool.issued >= old(self).pool.capacity ==> r
                is Exhausted && final(self).pool.issued == old(self).pool.issued,
    {
        self.pool.try_acquire()
    }

    /// Applies one completed request to the control law and resizes the pool
    /// to the new limit. `elapsed_nanos` is how long the request took;
    /// `pool_was_full` is whether its permit took the last free slot when it
    /// was admitted.
    ///
    /// A backpressure signal always yields
    /// `max(min_limit, limit * decrease_ratio)`, deterministically; a success
    /// records a latency sample and raises the limit by one step only when
    /// latency shows low queueing and the pool was fully utilized; any other
    /// error changes nothing but the pool's (unchanged-capacity) resize.
    pub fn feedback(&mut self, elapsed_nanos: u64, outcome: Outcome, pool_was_full: bool)
        requires
            old(self).wf(),
        ensures
            final(self).wf(),
            *final(self) == old(self).spec_feedback_next(elapsed_nanos, outcome, pool_was_full),
            final(self).limit_milli == old(self).spec_feedback_next_limit(
                elapsed_nanos,
                outcome,
                pool_was_full,
            ),
            final(self).rtt_baseline_nanos == old(self).spec_feedback_next_baseline(
                elapsed_nanos,
                outcome,
            ),
            final(self).pool.issued == old(self).pool.issued,
            final(self).pool.shut_down == old(self).pool.shut_down,
            final(self).pool.capacity == spec_round_to_capacity(final(self).limit_milli as int),
            outcome is BackpressureSignal ==> final(self).limit_milli
                == spec_backpressure_next_limit(
                old(self).limit_milli as int,
                old(self).min_limit_milli as int,
                old(self).decrease_ratio_milli as int,
            ),
            outcome !is Success ==> final(self).rtt_baseline_nanos == old(self).rtt_baseline_nanos,
    {
        match outcome {
            Outcome::BackpressureSignal => {
                proof {
                    let l = self.limit_milli as int;
                    let ratio = self.decrease_ratio_milli as int;
                    assert(l * ratio <= MAX_LIMIT_MILLI * LIMIT_SCALE) by (nonlinear_arith)
                        requires
                            0 <= l <= MAX_LIMIT_MILLI,
                            0 <= ratio <= LIMIT_SCALE,
                    ;
                    assert(l * ratio / (LIMIT_SCALE as int) <= l) by (nonlinear_arith)
                        requires
                            0 <= l,
                            0 <= ratio <= LIMIT_SCALE,
                    ;
                }
                let cut: u64 = self.limit_milli * self.decrease_ratio_milli / LIMIT_SCALE;
                self.limit_milli = if cut < self.min_limit_milli {
                    self.min_limit_milli
                } else {
                    cut
                };
            },
            Outcome::Success => {
                let base: u64 = match self.rtt_baseline_nanos {
                    Some(b) => b,
                    None => elapsed_nanos,
                };
                let low_queueing: bool = if elapsed_nanos <= base {
                    true
                } else {
                    elapsed_nanos - base <= base / 10
                };
                let next_base: u64 = if elapsed_nanos <= base {
                    elapsed_nanos
                } else if elapsed_nanos - base <= self.baseline_relaxation_nanos {
                    elapsed_nanos
                } else {
                    base + self.baseline_relaxation_nanos
                };
                self.rtt_baseline_nanos = Some(next_base);
                if low_queueing && pool_was_full {
                    let raised: u64 = self.limit_milli + self.increase_step_milli;
                    self.limit_milli = if raised > self.max_limit_milli {
                        self.max_limit_milli
                    } else {
                        raised
                    };
                }
            },
            Outcome::OtherError => {},
        }
        let new_capacity: u64 = round_to_capacity(self.limit_milli);
        self.pool.resize(new_capacity);
    }

    /// Tears the pool down: every later acquisition fails fatally.
    pub fn shutdown(&mut self)
        requires
            old(self).wf(),
        ensures
            final(self).wf(),
            *final(self) == (Controller { pool: final(self).pool, ..*old(self) }),
            final(self).pool == (PermitPool { shut_down: true, ..old(self).pool }),
    {
        self.pool.shutdown()
    }

    /// Reads the current limit, in fixed-point thousandths of a permit.
    pub fn current_limit_milli(&self) -> (r: u64)
        ensures
            r == self.limit_milli,
    {
        self.limit_milli
    }

    /// Reads how many permits are outstanding.
    pub fn in_flight(&self) -> (r: u64)
        ensures
            r == self.pool.issued,
    {
        self.pool.issued()
    }

    /// Reads the pool's current capacity, in whole permits.
    pub fn capacity(&self) -> (r: u64)
        ensures
            r == self.pool.capacity,
    {
        self.pool.capacity()
    }

    /// Reads the recorded latency baseline, if any success has been observed.
    pub fn rtt_baseline_nanos(&self) -> (r: Option<u64>)
        ensures
            r == self.rtt_baseline_nanos,
    {
        self.rtt_baseline_nanos
    }
}

/// Law: one backpressure signal cuts the limit deterministically to
/// `max(min_limit, limit * ratio / scale)` — a value never above the limit it
/// started from and never below the floor. Interleavings cannot corrupt the
/// arithmetic: each feedback holds the controller exclusively, so the cut is
/// a pure function of the state it found.
pub proof fn lemma_backpressure_cut_bounds(limit: int, min_limit: int, ratio_milli: int)
    requires
        1 <= min_limit <= limit,
        1 <= ratio_milli < LIMIT_SCALE,
    ensures
        min_limit <= spec_backpressure_next_limit(limit, min_limit, ratio_milli),
        spec_backpressure_next_limit(limit, min_limit, ratio_milli) <= limit,
{
    assert(limit * ratio_milli / (LIMIT_SCALE as int) <= limit) by (nonlinear_arith)
        requires
            0 <= limit,
            0 <= ratio_milli <= LIMIT_SCALE,
    ;
}

/// The limit after `n` consecutive successes that each found low queueing on
/// a fully-utilized pool, starting from `limit`.
pub open spec fn spec_limit_after_success_run(limit: int, max_limit: int, step: int, n: nat) -> int
    decreases n,
{
    if n == 0 {
        limit
    } else {
        spec_increase_next_limit(
            spec_limit_after_success_run(limit, max_limit, step, (n - 1) as nat),
            max_limit,
            step,
        )
    }
}

/// Law: a run of `n` low-queueing, fully-utilized successes leaves the limit
/// at `min(max_limit, limit + n * step)` — it climbs by exactly one step per
/// feedback until the ceiling, and is clamped there.
pub proof fn lemma_success_run_closed_form(limit: int, max_limit: int, step: int, n: nat)
    requires
        limit <= max_limit,
        step >= 1,
    ensures
        spec_limit_after_success_run(limit, max_limit, step, n) == min(
            max_limit,
            limit + n * step,
        ),
    decreases n,
{
    if n == 0 {
        assert(n * step == 0) by (nonlinear_arith)
            requires
                n == 0,
        ;
    } else {
        lemma_success_run_closed_form(limit, max_limit, step, (n - 1) as nat);
        assert(((n - 1) as nat) * step + step == n * step) by (nonlinear_arith)
            requires
                n >= 1,
        ;
        assert(((n - 1) as nat) * step >= 0) by (nonlinear_arith)
            requires
                step >= 1,
        ;
    }
}

/// Law: while the limit is still under the ceiling, each low-queueing,
/// fully-utilized success strictly raises it; once it equals the ceiling,
/// further such successes hold it there.
pub proof fn lemma_success_run_strictly_increases(limit: int, max_limit: int, step: int, n: nat)
    requires
        limit <= max_limit,
        step >= 1,
    ensures
        spec_limit_after_success_run(limit, max_limit, step, n) <= max_limit,
        spec_limit_after_success_run(limit, max_limit, step, n) < max_limit
            ==> spec_limit_after_success_run(limit, max_limit, step, n + 1)
            > spec_limit_after_success_run(limit, max_limit, step, n),
        spec_limit_after_success_run(limit, max_limit, step, n) == max_limit
            ==> spec_limit_after_success_run(limit, max_limit, step, n + 1) == max_limit,
{
    lemma_success_run_closed_form(limit, max_limit, step, n);
    assert(spec_limit_after_success_run(limit, max_limit, step, n + 1)
        == spec_increase_next_limit(
        spec_limit_after_success_run(limit, max_limit, step, n),
        max_limit,
        step,
    ));
}

/// Law: one success feedback that found low queueing on a fully-utilized
/// pool moves the limit exactly one step along the run of
/// [`spec_limit_after_success_run`], so a run of such feedbacks walks that
/// sequence.
pub proof fn lemma_gated_success_is_one_run_step(controller: Controller, elapsed_nanos: u64)
    requires
        controller.wf(),
        spec_low_queueing(
            elapsed_nanos as int,
            controller.spec_effective_baseline(elapsed_nanos),
        ),
    ensures
        controller.spec_feedback_next_limit(elapsed_nanos, Outcome::Success, true)
            == spec_limit_after_success_run(
            controller.limit_milli as int,
            controller.max_limit_milli as int,
            controller.increase_step_milli as int,
            1,
        ),
{
    let limit = controller.limit_milli as int;
    let max_limit = controller.max_limit_milli as int;
    let step = controller.increase_step_milli as int;
    assert(spec_limit_after_success_run(limit, max_limit, step, 0) == limit);
    assert(spec_limit_after_success_run(limit, max_limit, step, 1) == spec_increase_next_limit(
        limit,
        max_limit,
        step,
    ));
}

/// Law: a success whose latency equals the baseline leaves the baseline in
/// place and counts as low queueing, so a steady run of such successes keeps
/// the increase gate open.
pub proof fn lemma_steady_latency_keeps_gate(baseline: int, relaxation: int)
    requires
        0 <= baseline,
        0 <= relaxation,
    ensures
        spec_next_baseline(baseline, baseline, relaxation) == baseline,
        spec_low_queueing(baseline, baseline),
{
}

/// Rounds a fixed-point limit to the nearest whole number of permits.
pub fn round_to_capacity(limit_milli: u64) -> (capacity: u64)
    requires
        limit_milli <= MAX_LIMIT_MILLI,
    ensures
        capacity == spec_round_to_capacity(limit_milli as int),
        capacity <= MAX_CAPACITY,
{
    (limit_milli + LIMIT_SCALE / 2) / LIMIT_SCALE
}

} // verus!
