//! The retry flow state machine.
//!
//! A driver runs one retry flow as follows: create the flow for its run mode;
//! before each attempt call [`RetryFlow::begin_attempt`]; run the attempt
//! (bounded by [`RetryFlow::current_timeout`] where the mode enforces
//! timeouts); report the outcome with [`RetryFlow::succeed`] or
//! [`RetryFlow::fail`]; for a failure, consult hint and failure listeners and
//! call [`RetryFlow::decide`], which answers with the delay before the next
//! attempt or the terminal error.

use std::time::Duration;
use vstd::prelude::*;

use super::effective_attempt_timeout::{effective_timeout_spec, EffectiveAttemptTimeout};
use super::failure_policy::{
    budget_exhausted, configured_timeout, context_spec, failure_stop_reason, nanos_opt,
    remaining_spec, resolve_spec, retry_delay_spec, RetryFlowAction,
};
use super::elapsed::add_elapsed;
use crate::duration::{duration_nanos, saturating_sum_nanos, zero};
use crate::error::{AttemptFailure, RetryError, RetryErrorReason};
use crate::event::{AttemptFailureDecision, AttemptTimeoutSource, RetryContext, RetryContextView};
use crate::options::{RetryLimits, RetryLimitsView};

verus! {

/// How a driver runs attempts.
#[derive(Debug, Clone, Copy, PartialEq, Eq, Structural)]
pub enum RunMode {
    /// Attempts run on the calling thread and cannot be interrupted, so no
    /// per-attempt timeout can be enforced.
    Direct,
    /// Attempts run on worker threads, bounded by the effective timeout.
    Worker,
    /// Attempts run as futures, bounded by the effective timeout.
    Async,
}

/// Phase of a retry flow.
#[derive(Debug, Clone, Copy, PartialEq, Eq, Structural)]
pub enum FlowPhase {
    /// The next attempt may begin.
    Ready,
    /// An attempt is running.
    Running,
    /// An attempt failed and the retry decision is pending.
    Deciding,
    /// The flow ended with a success or a terminal error.
    Finished,
}

/// Next step after a retry decision.
pub enum RetryStep<E> {
    /// Sleep for `delay`, then begin the next attempt. The failure that caused
    /// the retry is [`RetryFlow::last_failure`].
    Retry {
        /// Delay before the next attempt.
        delay: Duration,
        /// Context carrying the selected next delay.
        context: RetryContext,
    },
    /// The flow ended with this terminal error.
    Finished(RetryError<E>),
}

/// State of one retry flow.
pub struct RetryFlow<E> {
    limits: RetryLimits,
    mode: RunMode,
    phase: FlowPhase,
    attempts: u32,
    operation_elapsed: Duration,
    last_failure: Option<AttemptFailure<E>>,
    timeout: EffectiveAttemptTimeout,
}

impl<E> RetryFlow<E> {
    /// Limits of this flow.
    pub closed spec fn spec_limits(&self) -> RetryLimitsView {
        self.limits@
    }

    /// Run mode of this flow.
    pub closed spec fn spec_mode(&self) -> RunMode {
        self.mode
    }

    /// Current phase.
    pub closed spec fn spec_phase(&self) -> FlowPhase {
        self.phase
    }

    /// Attempts begun so far.
    pub closed spec fn spec_attempts(&self) -> u32 {
        self.attempts
    }

    /// Cumulative user operation time of the finished attempts.
    pub closed spec fn spec_operation_elapsed(&self) -> Duration {
        self.operation_elapsed
    }

    /// Failure of the last attempt that was retried.
    pub closed spec fn spec_last_failure(&self) -> Option<AttemptFailure<E>> {
        self.last_failure
    }

    /// Effective timeout of the current attempt.
    pub closed spec fn spec_timeout(&self) -> EffectiveAttemptTimeout {
        self.timeout
    }

    /// Internal consistency: attempts never exceed the maximum, a ready flow
    /// has an attempt left, and a running or deciding flow has begun one.
    pub closed spec fn wf(&self) -> bool {
        &&& self.limits@.max_attempts > 0
        &&& self.attempts <= self.limits@.max_attempts
        &&& self.phase == FlowPhase::Ready ==> self.attempts < self.limits@.max_attempts
        &&& (self.phase == FlowPhase::Running || self.phase == FlowPhase::Deciding) ==> self.attempts >= 1
    }

    /// The effective timeout the flow selects for an attempt in `mode`: none
    /// in the direct mode, which cannot enforce one.
    pub open spec fn timeout_for_mode(
        mode: RunMode,
        limits: RetryLimitsView,
        operation_elapsed: Duration,
        total_elapsed: Duration,
    ) -> (Option<nat>, Option<AttemptTimeoutSource>) {
        if mode == RunMode::Direct {
            (None, None)
        } else {
            effective_timeout_spec(
                nanos_opt(configured_timeout(limits)),
                remaining_spec(limits.max_operation_elapsed, operation_elapsed),
                remaining_spec(limits.max_total_elapsed, total_elapsed),
            )
        }
    }

    /// Starts a retry flow.
    ///
    /// Fails with [`RetryErrorReason::UnsupportedOperation`] when the direct
    /// mode is asked to honour a configured attempt timeout.
    pub fn new(limits: RetryLimits, mode: RunMode) -> (r: Result<Self, RetryError<E>>)
        ensures
            r is Err <==> (mode == RunMode::Direct && limits@.attempt_timeout is Some),
            r matches Ok(f) ==> {
                &&& f.wf()
                &&& f.spec_phase() == FlowPhase::Ready
                &&& f.spec_attempts() == 0
                &&& duration_nanos(f.spec_operation_elapsed()) == 0
                &&& f.spec_last_failure() is None
                &&& f.spec_limits() == limits@
                &&& f.spec_mode() == mode
            },
            r matches Err(e) ==> {
                &&& e.spec_reason() == RetryErrorReason::UnsupportedOperation
                &&& e.spec_last_failure() is None
                &&& e.spec_context()@.attempt == 0
                &&& e.spec_context()@.max_attempts == limits@.max_attempts
                &&& e.spec_context()@.max_operation_elapsed == limits@.max_operation_elapsed
                &&& e.spec_context()@.max_total_elapsed == limits@.max_total_elapsed
                &&& e.spec_context()@.attempt_timeout == configured_timeout(limits@)
                &&& e.spec_context()@.attempt_timeout_source == Some(AttemptTimeoutSource::Configured)
            },
    {
        let max_attempts = limits.max_attempts();
        let configured = limits.attempt_timeout_duration();
        if matches!(mode, RunMode::Direct) && configured.is_some() {
            let context = limits.context(
                0,
                zero(),
                zero(),
                zero(),
                EffectiveAttemptTimeout::new(configured, Some(AttemptTimeoutSource::Configured)),
            );
            return Err(RetryError::new(RetryErrorReason::UnsupportedOperation, None, context));
        }
        Ok(RetryFlow {
            limits,
            mode,
            phase: FlowPhase::Ready,
            attempts: 0,
            operation_elapsed: zero(),
            last_failure: None,
            timeout: EffectiveAttemptTimeout::new(None, None),
        })
    }

    /// Returns the current phase.
    pub fn phase(&self) -> (r: FlowPhase)
        ensures
            r == self.spec_phase(),
    {
        self.phase
    }

    /// Returns the number of attempts begun so far.
    pub fn attempts(&self) -> (r: u32)
        ensures
            r == self.spec_attempts(),
    {
        self.attempts
    }

    /// Returns the cumulative user operation time of the finished attempts.
    pub fn operation_elapsed(&self) -> (r: Duration)
        ensures
            r == self.spec_operation_elapsed(),
    {
        self.operation_elapsed
    }

    /// Returns the failure of the last attempt that was retried.
    pub fn last_failure(&self) -> (r: Option<&AttemptFailure<E>>)
        ensures
            r is Some <==> self.spec_last_failure() is Some,
            r matches Some(f) ==> self.spec_last_failure() == Some(*f),
    {
        match &self.last_failure {
            Some(f) => Some(f),
            None => None,
        }
    }

    /// Returns the timeout the driver must enforce for the current attempt.
    pub fn current_timeout(&self) -> (r: Option<Duration>)
        ensures
            r == self.spec_timeout().duration,
    {
        self.timeout.duration
    }

    /// Begins the next attempt, or ends the flow when an elapsed budget is
    /// already exhausted.
    ///
    /// `total_elapsed` is the monotonic time spent in the flow so far. The
    /// operation budget is checked first, then the total budget; a terminal
    /// error carries the failure of the last retried attempt.
    pub fn begin_attempt(&mut self, total_elapsed: Duration) -> (r: Result<RetryContext, RetryError<E>>)
        requires
            old(self).wf(),
            old(self).spec_phase() == FlowPhase::Ready,
        ensures
            final(self).wf(),
            final(self).spec_limits() == old(self).spec_limits(),
            final(self).spec_mode() == old(self).spec_mode(),
            final(self).spec_operation_elapsed() == old(self).spec_operation_elapsed(),
            ({
                let limits = old(self).spec_limits();
                let op = old(self).spec_operation_elapsed();
                let stop = if budget_exhausted(limits.max_operation_elapsed, op) {
                    Some(RetryErrorReason::MaxOperationElapsedExceeded)
                } else if budget_exhausted(limits.max_total_elapsed, total_elapsed) {
                    Some(RetryErrorReason::MaxTotalElapsedExceeded)
                } else {
                    None
                };
                match r {
                    Err(e) => {
                        &&& stop == Some(e.spec_reason())
                        &&& e.spec_last_failure() == old(self).spec_last_failure()
                        &&& final(self).spec_phase() == FlowPhase::Finished
                        &&& final(self).spec_attempts() == old(self).spec_attempts()
                        &&& e.spec_context()@ == (RetryContextView {
                            attempt_elapsed: e.spec_context()@.attempt_elapsed,
                            ..context_spec(
                                limits,
                                old(self).spec_attempts(),
                                op,
                                total_elapsed,
                                e.spec_context()@.attempt_elapsed,
                                EffectiveAttemptTimeout {
                                    duration: if old(self).spec_mode() == RunMode::Direct {
                                        None
                                    } else {
                                        configured_timeout(limits)
                                    },
                                    source: None,
                                },
                            )
                        })
                        &&& duration_nanos(e.spec_context()@.attempt_elapsed) == 0
                        &&& e.spec_context()@.max_operation_elapsed == limits.max_operation_elapsed
                        &&& e.spec_context()@.max_total_elapsed == limits.max_total_elapsed
                        &&& e.spec_context()@.max_attempts == limits.max_attempts
                    },
                    Ok(c) => {
                        &&& stop is None
                        &&& final(self).spec_phase() == FlowPhase::Running
                        &&& final(self).spec_attempts() == old(self).spec_attempts() + 1
                        &&& final(self).spec_attempts() <= limits.max_attempts
                        &&& final(self).spec_last_failure() == old(self).spec_last_failure()
                        &&& (nanos_opt(final(self).spec_timeout().duration), final(self).spec_timeout().source)
                            == Self::timeout_for_mode(old(self).spec_mode(), limits, op, total_elapsed)
                        &&& c@ == context_spec(
                            limits,
                            final(self).spec_attempts(),
                            op,
                            total_elapsed,
                            c@.attempt_elapsed,
                            final(self).spec_timeout(),
                        )
                        &&& duration_nanos(c@.attempt_elapsed) == 0
                        &&& c@.attempt == final(self).spec_attempts()
                        &&& c@.max_operation_elapsed == limits.max_operation_elapsed
                        &&& c@.max_total_elapsed == limits.max_total_elapsed
                        &&& c@.max_attempts == limits.max_attempts
                    },
                }
            }),
    {
        let op = self.operation_elapsed;
        let configured = if matches!(self.mode, RunMode::Direct) {
            None
        } else {
            self.limits.attempt_timeout_duration()
        };
        let reason = if self.limits.operation_budget_exhausted(op) {
            Some(RetryErrorReason::MaxOperationElapsedExceeded)
        } else if self.limits.total_budget_exhausted(total_elapsed) {
            Some(RetryErrorReason::MaxTotalElapsedExceeded)
        } else {
            None
        };
        if let Some(reason) = reason {
            let context = self.limits.context(
                self.attempts,
                op,
                total_elapsed,
                zero(),
                EffectiveAttemptTimeout::new(configured, None),
            );
            let last_failure = self.last_failure.take();
            self.phase = FlowPhase::Finished;
            return Err(RetryError::new(reason, last_failure, context));
        }
        let attempt = self.attempts + 1;
        let timeout = if matches!(self.mode, RunMode::Direct) {
            EffectiveAttemptTimeout::new(None, None)
        } else {
            self.limits.effective_attempt_timeout(op, total_elapsed)
        };
        self.attempts = attempt;
        self.timeout = timeout;
        self.phase = FlowPhase::Running;
        Ok(self.limits.context(attempt, op, total_elapsed, zero(), timeout))
    }

    /// Records a successful attempt and ends the flow.
    ///
    /// Returns the context after the attempt, whose operation time includes
    /// `attempt_elapsed`.
    pub fn succeed(&mut self, attempt_elapsed: Duration, total_elapsed: Duration) -> (r: RetryContext)
        requires
            old(self).wf(),
            old(self).spec_phase() == FlowPhase::Running,
        ensures
            final(self).wf(),
            final(self).spec_phase() == FlowPhase::Finished,
            final(self).spec_attempts() == old(self).spec_attempts(),
            duration_nanos(final(self).spec_operation_elapsed()) == saturating_sum_nanos(
                duration_nanos(old(self).spec_operation_elapsed()),
                duration_nanos(attempt_elapsed),
            ),
            r@ == context_spec(
                old(self).spec_limits(),
                old(self).spec_attempts(),
                final(self).spec_operation_elapsed(),
                total_elapsed,
                attempt_elapsed,
                old(self).spec_timeout(),
            ),
            r@.max_operation_elapsed == old(self).spec_limits().max_operation_elapsed,
            r@.max_total_elapsed == old(self).spec_limits().max_total_elapsed,
            r@.max_attempts == old(self).spec_limits().max_attempts,
    {
        let op = add_elapsed(self.operation_elapsed, attempt_elapsed);
        self.operation_elapsed = op;
        self.phase = FlowPhase::Finished;
        self.limits.context(self.attempts, op, total_elapsed, attempt_elapsed, self.timeout)
    }

    /// Records a failed attempt.
    ///
    /// A timed-out worker that did not exit within the cancellation grace
    /// period (`worker_reaped` false) ends the flow with
    /// [`RetryErrorReason::WorkerStillRunning`]; a timeout selected by an
    /// elapsed budget ends it with that budget's reason. Otherwise the failure
    /// and the context after the attempt are handed back for the retry
    /// decision.
    pub fn fail(
        &mut self,
        failure: AttemptFailure<E>,
        attempt_elapsed: Duration,
        total_elapsed: Duration,
        worker_reaped: bool,
    ) -> (r: Result<(AttemptFailure<E>, RetryContext), RetryError<E>>)
        requires
            old(self).wf(),
            old(self).spec_phase() == FlowPhase::Running,
        ensures
            final(self).wf(),
            final(self).spec_attempts() == old(self).spec_attempts(),
            final(self).spec_limits() == old(self).spec_limits(),
            final(self).spec_mode() == old(self).spec_mode(),
            duration_nanos(final(self).spec_operation_elapsed()) == saturating_sum_nanos(
                duration_nanos(old(self).spec_operation_elapsed()),
                duration_nanos(attempt_elapsed),
            ),
            ({
                let ctx = context_spec(
                    old(self).spec_limits(),
                    old(self).spec_attempts(),
                    final(self).spec_operation_elapsed(),
                    total_elapsed,
                    attempt_elapsed,
                    old(self).spec_timeout(),
                );
                let timeout = old(self).spec_timeout();
                match r {
                    Err(e) => {
                        &&& final(self).spec_phase() == FlowPhase::Finished
                        &&& e.spec_last_failure() == Some(failure)
                        &&& e.spec_context()@.max_operation_elapsed == old(self).spec_limits().max_operation_elapsed
                        &&& e.spec_context()@.max_total_elapsed == old(self).spec_limits().max_total_elapsed
                        &&& if failure is Timeout && !worker_reaped {
                            &&& e.spec_reason() == RetryErrorReason::WorkerStillRunning
                            &&& e.spec_context()@ == (RetryContextView { unreaped_worker_count: 1, ..ctx })
                        } else {
                            &&& timeout.is_max_elapsed_timeout_spec(failure)
                            &&& e.spec_reason() == if timeout.source == Some(AttemptTimeoutSource::MaxOperationElapsed) {
                                RetryErrorReason::MaxOperationElapsedExceeded
                            } else {
                                RetryErrorReason::MaxTotalElapsedExceeded
                            }
                            &&& e.spec_context()@ == ctx
                        }
                    },
                    Ok((f, c)) => {
                        &&& c@.max_operation_elapsed == old(self).spec_limits().max_operation_elapsed
                        &&& c@.max_total_elapsed == old(self).spec_limits().max_total_elapsed
                        &&& !(failure is Timeout && !worker_reaped)
                        &&& !timeout.is_max_elapsed_timeout_spec(failure)
                        &&& final(self).spec_phase() == FlowPhase::Deciding
                        &&& f == failure
                        &&& c@ == ctx
                    },
                }
            }),
    {
        let op = add_elapsed(self.operation_elapsed, attempt_elapsed);
        self.operation_elapsed = op;
        let context = self.limits.context(self.attempts, op, total_elapsed, attempt_elapsed, self.timeout);
        if failure.is_timeout() && !worker_reaped {
            self.phase = FlowPhase::Finished;
            return Err(RetryError::new(
                RetryErrorReason::WorkerStillRunning,
                Some(failure),
                context.with_unreaped_worker_count(1),
            ));
        }
        if self.timeout.is_max_elapsed_timeout(&failure) {
            let reason = match self.timeout.source {
                Some(AttemptTimeoutSource::MaxOperationElapsed) => RetryErrorReason::MaxOperationElapsedExceeded,
                _ => RetryErrorReason::MaxTotalElapsedExceeded,
            };
            self.phase = FlowPhase::Finished;
            return Err(RetryError::new(reason, Some(failure), context));
        }
        self.phase = FlowPhase::Deciding;
        Ok((failure, context))
    }

    /// Decides what follows a failed attempt.
    ///
    /// `context` is the context handed back by [`RetryFlow::fail`], with the
    /// retry-after hint applied; `listener_decision` is the resolved decision
    /// of the failure listeners; `policy_delay` is the delay of the configured
    /// strategy for this attempt. A retry keeps the failure as the last
    /// failure and makes the flow ready for the next attempt.
    pub fn decide(
        &mut self,
        failure: AttemptFailure<E>,
        context: RetryContext,
        listener_decision: AttemptFailureDecision,
        policy_delay: Duration,
    ) -> (r: RetryStep<E>)
        requires
            old(self).wf(),
            old(self).spec_phase() == FlowPhase::Deciding,
        ensures
            final(self).wf(),
            final(self).spec_attempts() == old(self).spec_attempts(),
            final(self).spec_limits() == old(self).spec_limits(),
            final(self).spec_mode() == old(self).spec_mode(),
            final(self).spec_operation_elapsed() == old(self).spec_operation_elapsed(),
            ({
                let limits = old(self).spec_limits();
                let decision = resolve_spec(limits.attempt_timeout, listener_decision, failure);
                let delay = retry_delay_spec(decision, context@.retry_after_hint, policy_delay);
                let reason = failure_stop_reason(limits, old(self).spec_attempts(), decision, context@);
                match r {
                    RetryStep::Finished(e) => {
                        &&& final(self).spec_phase() == FlowPhase::Finished
                        &&& reason == Some(e.spec_reason())
                        &&& e.spec_last_failure() == Some(failure)
                        &&& e.spec_context() == context
                    },
                    RetryStep::Retry { delay: d, context: c } => {
                        &&& final(self).spec_phase() == FlowPhase::Ready
                        &&& reason is None
                        &&& old(self).spec_attempts() < limits.max_attempts
                        &&& d == delay
                        &&& final(self).spec_last_failure() == Some(failure)
                        &&& c@ == (RetryContextView { next_delay: Some(delay), ..context@ })
                    },
                }
            }),
    {
        let action = self.limits.handle_failure(self.attempts, failure, context, listener_decision, policy_delay);
        match action {
            RetryFlowAction::Retry { delay, failure, context } => {
                self.last_failure = Some(failure);
                self.phase = FlowPhase::Ready;
                RetryStep::Retry { delay, context }
            },
            RetryFlowAction::Finished(error) => {
                self.phase = FlowPhase::Finished;
                RetryStep::Finished(error)
            },
        }
    }
}

/// A retry flow never begins more attempts than its maximum.
pub proof fn law_attempts_never_exceed_maximum<E>(flow: &RetryFlow<E>)
    requires
        flow.wf(),
    ensures
        flow.spec_attempts() <= flow.spec_limits().max_attempts,
        flow.spec_phase() == FlowPhase::Ready ==> flow.spec_attempts() < flow.spec_limits().max_attempts,
{
}

} // verus!
