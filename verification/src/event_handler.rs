//! The engine that runs the handlers of a published event.
//!
//! Every handler that takes an interest in an event runs on its own. A run
//! that fails for a transient reason is repeated after a delay that doubles
//! with every failure; a run that fails for any other reason, or once too
//! often, is escalated: reported as a critical failure and given up.
//!
//! The engine itself only decides. Whoever drives it invokes the handler,
//! sleeps and raises the alert, and tells the engine what came of it.

use crate::common::{Cause, Error};
use crate::utils::clock::local_now;
use crate::utils::event_publisher::{is_copy_of, AnyEvent, Event};
use vstd::prelude::*;
use vstd::string::StringExecFns;

verus! {

/// How many times a failed run is repeated at most.
pub const MAX_ATTEMPTS: u32 = 4;

/// The delay, in seconds, from which the backoff starts to double.
pub const BASE_DELAY: u64 = 1;

/// The delay after the given number of failures in a row: the base delay,
/// doubled once for every failure.
pub open spec fn backoff(base: nat, failures: nat) -> nat
    decreases failures,
{
    if failures == 0 {
        base
    } else {
        2 * backoff(base, (failures - 1) as nat)
    }
}

/// The delay grows with the number of failures.
pub proof fn lemma_backoff_grows(base: nat, fewer: nat, more: nat)
    requires
        fewer <= more,
    ensures
        backoff(base, fewer) <= backoff(base, more),
    decreases more,
{
    if fewer < more {
        lemma_backoff_grows(base, fewer, (more - 1) as nat);
    }
}

/// The delay is the base delay times two to the power of the failures.
pub proof fn lemma_backoff_is_exponential(base: nat, failures: nat)
    ensures
        backoff(base, failures) == base * vstd::arithmetic::power2::pow2(failures),
    decreases failures,
{
    if failures == 0 {
        vstd::arithmetic::power2::lemma2_to64();
    } else {
        lemma_backoff_is_exponential(base, (failures - 1) as nat);
        vstd::arithmetic::power2::lemma_pow2_unfold(failures);
        let half = vstd::arithmetic::power2::pow2((failures - 1) as nat);
        assert(2 * (base * half) == base * (2 * half)) by (nonlinear_arith);
    }
}

/// How often and after what delays a failed run is repeated.
#[derive(Clone, Copy, Debug)]
pub struct RetryPolicy {
    base_delay: u64,
    max_retries: u32,
}

impl RetryPolicy {
    /// The longest delay of the policy fits into the seconds of a `u64`.
    #[verifier::type_invariant]
    spec fn fits(self) -> bool {
        backoff(self.base_delay as nat, self.max_retries as nat) <= u64::MAX
    }

    /// The delay, in seconds, from which the backoff starts to double.
    pub closed spec fn base(self) -> nat {
        self.base_delay as nat
    }

    /// How many times a failed run is repeated at most.
    pub closed spec fn limit(self) -> nat {
        self.max_retries as nat
    }

    /// A policy that repeats a failed run up to `max_retries` times and
    /// waits `base_delay` seconds, doubled with every failure, in between;
    /// `None` if the longest of these delays is more seconds than a `u64`
    /// holds.
    pub fn new(base_delay: u64, max_retries: u32) -> (policy: Option<RetryPolicy>)
        ensures
            match policy {
                Some(policy) => backoff(base_delay as nat, max_retries as nat) <= u64::MAX
                    && policy.base() == base_delay && policy.limit() == max_retries,
                None => backoff(base_delay as nat, max_retries as nat) > u64::MAX,
            },
    {
        if base_delay == 0 {
            proof {
                lemma_backoff_of_zero(max_retries as nat);
            }
            return Some(RetryPolicy { base_delay, max_retries });
        }
        let mut delay: u64 = base_delay;
        let mut doubled: u32 = 0;
        while doubled < max_retries
            invariant
                doubled <= max_retries,
                delay == backoff(base_delay as nat, doubled as nat),
                delay >= 1,
            decreases max_retries - doubled,
        {
            if delay > u64::MAX / 2 {
                proof {
                    lemma_backoff_grows(
                        base_delay as nat,
                        (doubled + 1) as nat,
                        max_retries as nat,
                    );
                }
                return None;
            }
            delay = delay * 2;
            doubled = doubled + 1;
        }
        Some(RetryPolicy { base_delay, max_retries })
    }

    /// The delay, in seconds, from which the backoff starts to double.
    pub fn base_delay(&self) -> (secs: u64)
        ensures
            secs == self.base(),
    {
        self.base_delay
    }

    /// How many times a failed run is repeated at most.
    pub fn max_retries(&self) -> (times: u32)
        ensures
            times == self.limit(),
    {
        self.max_retries
    }

    /// The delay, in seconds, after the given number of failures in a row.
    pub fn delay_after(&self, failures: u32) -> (secs: u64)
        requires
            failures <= self.limit(),
        ensures
            secs == backoff(self.base(), failures as nat),
    {
        proof {
            use_type_invariant(self);
        }
        if self.base_delay == 0 {
            proof {
                lemma_backoff_of_zero(failures as nat);
            }
            return 0;
        }
        let mut delay: u64 = self.base_delay;
        let mut doubled: u32 = 0;
        while doubled < failures
            invariant
                doubled <= failures,
                failures <= self.max_retries,
                delay == backoff(self.base_delay as nat, doubled as nat),
                backoff(self.base_delay as nat, self.max_retries as nat) <= u64::MAX,
            decreases failures - doubled,
        {
            proof {
                lemma_backoff_grows(
                    self.base_delay as nat,
                    (doubled + 1) as nat,
                    self.max_retries as nat,
                );
            }
            delay = delay * 2;
            doubled = doubled + 1;
        }
        delay
    }
}

impl Default for RetryPolicy {
    /// Up to four repeats, after 2, 4, 8 and 16 seconds.
    fn default() -> (policy: RetryPolicy)
        ensures
            policy.base() == BASE_DELAY,
            policy.limit() == MAX_ATTEMPTS,
    {
        proof {
            reveal_with_fuel(backoff, 5);
        }
        RetryPolicy { base_delay: BASE_DELAY, max_retries: MAX_ATTEMPTS }
    }
}

/// The payload of `event` for the handlers of events of type `T`; `None`
/// for an event of any other type, which these handlers pass over.
///
/// Of an event that carries a `T` the result is a copy of what it carries;
/// and whatever is returned is a copy of a `T` that the event carries.
pub fn filter_event<T: AnyEvent>(event: Event) -> (payload: Option<T>)
    ensures
        forall|value: T| #[trigger] event.carries(value) ==> is_copy_of(payload, value),
        payload matches Some(copy) ==> exists|value: T| #[trigger]
            event.carries(value) && cloned(value, copy),
{
    event.downcast::<T>()
}

/// Where the run of one handler stands.
#[derive(Clone, Copy, Debug, PartialEq, Eq, Structural)]
pub enum Phase {
    /// The handler is due to be invoked, or is running.
    Attempting,
    /// The handler failed and waits out the delay before its next attempt.
    Retrying,
    /// The handler has done its work.
    Succeeded,
    /// The handler has failed for good and the failure was reported.
    Escalated,
}

/// What the driver tells the engine.
#[derive(Debug)]
pub enum Signal {
    /// The handler returned.
    Outcome(Result<(), Error>),
    /// The delay before the next attempt is over.
    DelayElapsed,
}

/// A handler failure that nobody will try to mend: what the critical-alert
/// sink is told, but for the time, which the driver adds.
#[derive(Debug)]
pub struct Escalation {
    /// The text that describes the event.
    pub event: String,
    /// What the last failure presented itself with.
    pub error: Cause,
}

/// The report of a handler failure that was escalated at the time `now`.
pub open spec fn report_text(now: Seq<char>, escalation: Escalation) -> Seq<char> {
    "EVENT HANDLING FAILED!!!\n\n"@ + now + "\n\nEvent: "@ + escalation.event@ + "\n\nError: "@
        + escalation.error.text@ + "\n\n"@ + escalation.error.detail@
}

impl Escalation {
    /// The report for the critical-alert sink, dated `now`.
    pub fn report_at(&self, now: &str) -> (report: String)
        ensures
            report@ == report_text(now@, *self),
    {
        let mut report = String::from_str("EVENT HANDLING FAILED!!!\n\n");
        report.append(now);
        report.append("\n\nEvent: ");
        report.append(self.event.as_str());
        report.append("\n\nError: ");
        report.append(self.error.text.as_str());
        report.append("\n\n");
        report.append(self.error.detail.as_str());
        report
    }

    /// The report for the critical-alert sink, dated with the local time of
    /// this call.
    pub fn report(&self) -> (report: String)
        ensures
            exists|now: Seq<char>| report@ == report_text(now, *self),
    {
        let now = local_now();
        self.report_at(now.as_str())
    }
}

/// What the engine asks the driver to do next.
#[derive(Debug)]
pub enum Action {
    /// Invoke the handler and report its outcome.
    Invoke,
    /// Sleep for so many seconds and report that the delay is over.
    Sleep(u64),
    /// Report the failure to the critical-alert sink and stop.
    Escalate(Escalation),
    /// Stop: the handler has done its work.
    Finish,
    /// Nothing: the signal does not belong to the phase the run is in.
    Ignore,
}

/// The run of one handler on one event, as the engine sees it.
pub struct Engine {
    /// The delay from which the backoff starts to double.
    pub base: nat,
    /// How many times a failed run is repeated at most.
    pub limit: nat,
    /// The text that describes the event.
    pub event: String,
    /// How many times the run has been repeated so far.
    pub retries: nat,
    /// Where the run stands.
    pub phase: Phase,
}

impl Engine {
    /// The run has not been repeated more often than allowed, and all of its
    /// delays fit into the seconds of a `u64`.
    pub open spec fn wf(self) -> bool {
        self.retries <= self.limit && backoff(self.base, self.limit) <= u64::MAX
    }

    /// The run of a handler that is due to be invoked for the first time.
    pub open spec fn fresh(base: nat, limit: nat, event: String) -> Engine {
        Engine { base, limit, event, retries: 0, phase: Phase::Attempting }
    }

    /// The state after `signal`, and what the driver is to do next.
    ///
    /// An attempt that succeeds ends the run. An attempt that fails for a
    /// transient reason is repeated after the backoff delay, as long as the
    /// retries are not used up; any other failure is escalated with the
    /// event and the failure, and ends the run. When the delay is over the
    /// handler is invoked again. A signal that does not belong to the phase
    /// changes nothing.
    pub open spec fn step(self, signal: Signal) -> (Engine, Action) {
        match (self.phase, signal) {
            (Phase::Attempting, Signal::Outcome(Ok(_))) => (
                Engine { phase: Phase::Succeeded, ..self },
                Action::Finish,
            ),
            (Phase::Attempting, Signal::Outcome(Err(error))) => if error.transient()
                && self.retries < self.limit {
                (
                    Engine { phase: Phase::Retrying, retries: self.retries + 1, ..self },
                    Action::Sleep(backoff(self.base, self.retries + 1) as u64),
                )
            } else {
                (
                    Engine { phase: Phase::Escalated, ..self },
                    Action::Escalate(Escalation { event: self.event, error: error.spec_cause() }),
                )
            },
            (Phase::Retrying, Signal::DelayElapsed) => (
                Engine { phase: Phase::Attempting, ..self },
                Action::Invoke,
            ),
            _ => (self, Action::Ignore),
        }
    }
}

/// The run of one handler on one event.
pub struct Execution {
    policy: RetryPolicy,
    event: String,
    retries: u32,
    phase: Phase,
}

impl View for Execution {
    type V = Engine;

    closed spec fn view(&self) -> Engine {
        Engine {
            base: self.policy.base(),
            limit: self.policy.limit(),
            event: self.event,
            retries: self.retries as nat,
            phase: self.phase,
        }
    }
}

impl Execution {
    #[verifier::type_invariant]
    spec fn within_policy(self) -> bool {
        self.retries <= self.policy.max_retries && self.policy.fits()
    }

    /// The run of a handler on the event that `event` describes. The first
    /// thing to do is to invoke the handler.
    pub fn start(policy: RetryPolicy, event: String) -> (execution: Execution)
        ensures
            execution@ == Engine::fresh(policy.base(), policy.limit(), event),
            execution@.wf(),
    {
        proof {
            use_type_invariant(policy);
        }
        Execution { policy, event, retries: 0, phase: Phase::Attempting }
    }

    /// Where the run stands.
    pub fn phase(&self) -> (phase: Phase)
        ensures
            phase == self@.phase,
    {
        self.phase
    }

    /// How many times the run has been repeated so far.
    pub fn retries(&self) -> (retries: u32)
        ensures
            retries == self@.retries,
    {
        self.retries
    }

    /// Takes note of `signal` and says what the driver is to do next.
    pub fn step(&mut self, signal: Signal) -> (action: Action)
        ensures
            (final(self)@, action) == old(self)@.step(signal),
            final(self)@.wf(),
    {
        proof {
            use_type_invariant(&*self);
        }
        match self.phase {
            Phase::Attempting => match signal {
                Signal::Outcome(Ok(_)) => {
                    self.phase = Phase::Succeeded;
                    Action::Finish
                },
                Signal::Outcome(Err(error)) => {
                    if error.is_network_problem() && self.retries < self.policy.max_retries {
                        self.retries = self.retries + 1;
                        self.phase = Phase::Retrying;
                        Action::Sleep(self.policy.delay_after(self.retries))
                    } else {
                        self.phase = Phase::Escalated;
                        Action::Escalate(
                            Escalation { event: self.event.clone(), error: error.into_cause() },
                        )
                    }
                },
                Signal::DelayElapsed => Action::Ignore,
            },
            Phase::Retrying => match signal {
                Signal::DelayElapsed => {
                    self.phase = Phase::Attempting;
                    Action::Invoke
                },
                Signal::Outcome(_) => Action::Ignore,
            },
            Phase::Succeeded => Action::Ignore,
            Phase::Escalated => Action::Ignore,
        }
    }
}

/// What came of driving a run: how often the handler was invoked, the
/// delays that were slept through, the failures that were escalated, and
/// where the run stood in the end.
pub struct Trace {
    pub attempts: nat,
    pub delays: Seq<u64>,
    pub escalations: Seq<Escalation>,
    pub end: Phase,
}

/// Drives a run with a handler whose attempts end in `outcomes`, one after
/// the other: every outcome is reported to the engine, every delay it asks
/// for is slept through, and the run ends when the engine says so or when
/// the outcomes are used up.
pub open spec fn run(engine: Engine, outcomes: Seq<Result<(), Error>>) -> Trace
    decreases outcomes.len(),
{
    if outcomes.len() == 0 || engine.phase != Phase::Attempting {
        Trace { attempts: 0, delays: Seq::empty(), escalations: Seq::empty(), end: engine.phase }
    } else {
        let (next, action) = engine.step(Signal::Outcome(outcomes[0]));
        match action {
            Action::Sleep(secs) => {
                let rest = run(next.step(Signal::DelayElapsed).0, outcomes.drop_first());
                Trace {
                    attempts: rest.attempts + 1,
                    delays: seq![secs] + rest.delays,
                    escalations: rest.escalations,
                    end: rest.end,
                }
            },
            Action::Escalate(escalation) => Trace {
                attempts: 1,
                delays: Seq::empty(),
                escalations: seq![escalation],
                end: next.phase,
            },
            _ => Trace {
                attempts: 1,
                delays: Seq::empty(),
                escalations: Seq::empty(),
                end: next.phase,
            },
        }
    }
}

/// Whether an attempt ended in a transient failure.
pub open spec fn failed_transiently(outcome: Result<(), Error>) -> bool {
    outcome matches Err(error) && error.transient()
}

/// Whether an attempt ended in a failure that is not transient.
pub open spec fn failed_for_good(outcome: Result<(), Error>) -> bool {
    outcome matches Err(error) && !error.transient()
}

/// A handler that fails transiently a number of times within the retries
/// that are left, and then succeeds, ends as succeeded: it was invoked once
/// more than it failed, every failure was followed by the next backoff
/// delay, and nothing was escalated.
pub proof fn lemma_retry_then_succeed(
    engine: Engine,
    outcomes: Seq<Result<(), Error>>,
    failures: nat,
)
    requires
        engine.wf(),
        engine.phase == Phase::Attempting,
        engine.retries + failures <= engine.limit,
        outcomes.len() == failures + 1,
        forall|i: int| 0 <= i < failures ==> failed_transiently(#[trigger] outcomes[i]),
        outcomes[failures as int] is Ok,
    ensures
        run(engine, outcomes).end == Phase::Succeeded,
        run(engine, outcomes).attempts == failures + 1,
        run(engine, outcomes).escalations.len() == 0,
        run(engine, outcomes).delays.len() == failures,
        forall|i: int|
            0 <= i < failures ==> #[trigger] run(engine, outcomes).delays[i] == backoff(
                engine.base,
                (engine.retries + i + 1) as nat,
            ),
    decreases failures,
{
    if failures > 0 {
        let failed = engine.step(Signal::Outcome(outcomes[0])).0;
        let woken = failed.step(Signal::DelayElapsed).0;
        lemma_backoff_grows(engine.base, engine.retries + 1, engine.limit);
        lemma_retry_then_succeed(woken, outcomes.drop_first(), (failures - 1) as nat);
    }
}

/// A handler that keeps failing transiently is repeated until the retries
/// are used up and then escalated, once, with its last failure: it was
/// invoked once more than there were retries left, and every failure but
/// the last was followed by a delay.
pub proof fn lemma_retry_exhaustion(engine: Engine, outcomes: Seq<Result<(), Error>>)
    requires
        engine.wf(),
        engine.phase == Phase::Attempting,
        outcomes.len() > engine.limit - engine.retries,
        forall|i: int|
            0 <= i <= engine.limit - engine.retries ==> failed_transiently(#[trigger] outcomes[i]),
    ensures
        run(engine, outcomes).end == Phase::Escalated,
        run(engine, outcomes).attempts == engine.limit - engine.retries + 1,
        run(engine, outcomes).delays.len() == engine.limit - engine.retries,
        run(engine, outcomes).escalations.len() == 1,
        run(engine, outcomes).escalations[0].event == engine.event,
        run(engine, outcomes).escalations[0].error == outcomes[engine.limit
            - engine.retries]->Err_0.spec_cause(),
    decreases engine.limit - engine.retries,
{
    if engine.retries < engine.limit {
        let failed = engine.step(Signal::Outcome(outcomes[0])).0;
        let woken = failed.step(Signal::DelayElapsed).0;
        lemma_retry_exhaustion(woken, outcomes.drop_first());
    }
}

/// A handler that fails for a reason that is not transient is escalated at
/// once, with that failure: it was invoked once and never repeated.
pub proof fn lemma_terminal_short_circuit(engine: Engine, outcomes: Seq<Result<(), Error>>)
    requires
        engine.phase == Phase::Attempting,
        outcomes.len() > 0,
        failed_for_good(outcomes[0]),
    ensures
        run(engine, outcomes).end == Phase::Escalated,
        run(engine, outcomes).attempts == 1,
        run(engine, outcomes).delays.len() == 0,
        run(engine, outcomes).escalations.len() == 1,
        run(engine, outcomes).escalations[0].event == engine.event,
        run(engine, outcomes).escalations[0].error == outcomes[0]->Err_0.spec_cause(),
{
}

/// Whatever a run is told, it stays within its policy, it is never
/// repeated less often than before, and it is escalated only from an
/// attempt.
pub proof fn lemma_step_stays_within_policy(engine: Engine, signal: Signal)
    requires
        engine.wf(),
    ensures
        engine.step(signal).0.wf(),
        engine.step(signal).0.base == engine.base,
        engine.step(signal).0.limit == engine.limit,
        engine.step(signal).0.event == engine.event,
        engine.step(signal).0.retries >= engine.retries,
        engine.step(signal).1 is Escalate ==> engine.phase == Phase::Attempting,
        engine.step(signal).1 matches Action::Sleep(secs) ==> secs == backoff(
            engine.base,
            engine.retries + 1,
        ) && engine.retries < engine.limit,
{
    if engine.retries < engine.limit {
        lemma_backoff_grows(engine.base, engine.retries + 1, engine.limit);
    }
}

/// A run that has ended stays as it is, whatever it is told: nothing is
/// retried or escalated a second time.
pub proof fn lemma_ended_run_is_final(engine: Engine, signal: Signal)
    requires
        engine.phase == Phase::Succeeded || engine.phase == Phase::Escalated,
    ensures
        engine.step(signal) == (engine, Action::Ignore),
{
}

proof fn lemma_backoff_of_zero(failures: nat)
    ensures
        backoff(0, failures) == 0,
    decreases failures,
{
    if failures > 0 {
        lemma_backoff_of_zero((failures - 1) as nat);
    }
}

} // verus!
