//! Who may start a turn, which turns are in flight, and how a runtime stops.

use crate::agent::driver::CancelReason;
use crate::agent::turn::{closure_of, AgentRuntimeError, AgentTurnReport, TurnClosureStatus};
use crate::budget::binding::is_usual;
use crate::budget::ledger::{BudgetRun, TaskBudget};
use crate::budget::model::{BudgetError, LedgerView};
use crate::budget::vocabulary::{BudgetIdentity, BudgetLimits, IdentityView, LimitsView, TokenBudgetMode};
use crate::id::{SessionId, TaskId};
use crate::json::{decimal, decimal_text};
use crate::record::Record;
use crate::time::Duration;
use vstd::prelude::*;

verus! {

pub const DEFAULT_MAX_IN_FLIGHT: usize = 64;

/// How many failures of turns that nobody waits for are kept for the stop.
pub const MAX_DETACHED_FAILURES: usize = 16;

#[derive(Clone, Copy, Debug, PartialEq, Eq, Structural)]
pub enum RuntimeLifecycleState {
    Constructed,
    Running,
    Stopping,
    Stopped,
}

/// A turn in flight and why it was asked to stop, if it was.
#[derive(Clone, Copy, Debug, PartialEq, Eq, Structural)]
pub struct Job {
    pub id: u64,
    pub reason: CancelReason,
}

/// Limits of the runtime and of every task without limits of its own.
#[derive(Clone, Copy, Debug, PartialEq, Eq)]
pub struct CanonicalAgentRuntimePlugin {
    pub max_in_flight: usize,
    pub budget_limits: BudgetLimits,
}

impl CanonicalAgentRuntimePlugin {
    /// The usual capacity and the usual limits.
    pub fn new() -> (plugin: Self)
        ensures
            plugin.max_in_flight == DEFAULT_MAX_IN_FLIGHT,
            is_usual(plugin.budget_limits),
    {
        CanonicalAgentRuntimePlugin {
            max_in_flight: DEFAULT_MAX_IN_FLIGHT,
            budget_limits: BudgetLimits::default(),
        }
    }

    pub fn with_budget_limits(self, limits: BudgetLimits) -> (plugin: Self)
        ensures
            plugin == (CanonicalAgentRuntimePlugin { budget_limits: limits, ..self }),
    {
        CanonicalAgentRuntimePlugin { budget_limits: limits, ..self }
    }

    pub fn with_max_in_flight(self, max_in_flight: usize) -> (plugin: Self)
        ensures
            plugin == (CanonicalAgentRuntimePlugin { max_in_flight, ..self }),
    {
        CanonicalAgentRuntimePlugin { max_in_flight, ..self }
    }
}

impl Default for CanonicalAgentRuntimePlugin {
    fn default() -> (plugin: Self)
        ensures
            plugin.max_in_flight == DEFAULT_MAX_IN_FLIGHT,
            is_usual(plugin.budget_limits),
    {
        Self::new()
    }
}

/// The shared state behind the runtime's lock.
#[derive(Debug, PartialEq, Eq)]
pub struct Control {
    lifecycle: RuntimeLifecycleState,
    next_job_id: u64,
    jobs: Vec<Job>,
    detached_closure_failures: Vec<String>,
}

pub struct ControlView {
    pub lifecycle: RuntimeLifecycleState,
    pub next_job_id: u64,
    /// In the order in which they were started.
    pub jobs: Seq<Job>,
    pub detached: Seq<Seq<char>>,
}

/// The job once a reason was given: the first reason stays.
pub open spec fn asked(job: Job, reason: CancelReason) -> Job {
    if job.reason == CancelReason::NotRequested {
        Job { reason, ..job }
    } else {
        job
    }
}

/// The jobs without the one that has this id.
pub open spec fn without(jobs: Seq<Job>, id: u64) -> Seq<Job> {
    jobs.filter(|job: Job| job.id != id)
}

impl ControlView {
    /// Ids are handed out in order and never again, and few failures are kept.
    pub open spec fn wf(self) -> bool {
        &&& forall|i: int| 0 <= i < self.jobs.len() ==> (#[trigger] self.jobs[i]).id < self.next_job_id
        &&& forall|i: int, j: int|
            0 <= i < j < self.jobs.len() ==> (#[trigger] self.jobs[i]).id < (
            #[trigger] self.jobs[j]).id
        &&& self.detached.len() <= MAX_DETACHED_FAILURES
    }

    /// Why no turn can start, before its budget is looked at.
    pub open spec fn refuses(self, agent_known: bool, agent_key: String, max_in_flight: usize) -> Option<
        AgentRuntimeError,
    > {
        if self.lifecycle != RuntimeLifecycleState::Running {
            Some(AgentRuntimeError::Stopped)
        } else if !agent_known {
            Some(AgentRuntimeError::AgentNotFound { key: agent_key })
        } else if self.jobs.len() >= max_in_flight {
            Some(AgentRuntimeError::Overloaded)
        } else {
            None
        }
    }

    /// One more turn in flight.
    pub open spec fn with_job(self) -> ControlView {
        ControlView {
            next_job_id: (self.next_job_id + 1) as u64,
            jobs: self.jobs.push(Job { id: self.next_job_id, reason: CancelReason::NotRequested }),
            ..self
        }
    }

    /// The turn is over; what nobody was there to hear is kept while there is room.
    pub open spec fn without_job(self, id: u64, unheard: Option<Seq<char>>) -> ControlView {
        ControlView {
            jobs: without(self.jobs, id),
            detached: match unheard {
                Some(text) => if self.detached.len() < MAX_DETACHED_FAILURES {
                    self.detached.push(text)
                } else {
                    self.detached
                },
                None => self.detached,
            },
            ..self
        }
    }

    /// The job with this id was asked to stop.
    pub open spec fn with_reason(self, id: u64, reason: CancelReason) -> ControlView {
        ControlView {
            jobs: self.jobs.map_values(
                |job: Job|
                    if job.id == id {
                        asked(job, reason)
                    } else {
                        job
                    },
            ),
            ..self
        }
    }

    /// Every turn was asked to stop.
    pub open spec fn stopping(self) -> ControlView {
        ControlView {
            lifecycle: RuntimeLifecycleState::Stopping,
            jobs: self.jobs.map_values(|job: Job| asked(job, CancelReason::RuntimeStopping)),
            ..self
        }
    }
}

/// A turn that was let in.
#[derive(Debug)]
pub struct StartedTurn {
    pub job_id: u64,
    pub run: BudgetRun,
}

/// What starting a turn on a task's ledger gives, once the runtime lets it in.
pub open spec fn admits(
    result: Result<StartedTurn, AgentRuntimeError>,
    before: ControlView,
    after: ControlView,
    task: LedgerView,
    task_after: LedgerView,
    limits: LimitsView,
    now: nat,
    later: nat,
) -> bool {
    let begun = task.begun(None, limits, now, later);
    match task.begin_fault(now) {
        Some(fault) => {
            &&& result == Err::<StartedTurn, AgentRuntimeError>(AgentRuntimeError::Budget(fault))
            &&& after == before
            &&& task_after == begun
        },
        None => {
            let run = (task.next_id + 1) as u64;
            if before.next_job_id == u64::MAX {
                &&& result == Err::<StartedTurn, AgentRuntimeError>(AgentRuntimeError::Overloaded)
                &&& after == before
                &&& task_after == begun.run_abandoned(run, later)
            } else {
                &&& result matches Ok(started)
                &&& started.job_id == before.next_job_id
                &&& started.run.run_id() == run
                &&& !started.run.is_finished()
                &&& after == before.with_job()
                &&& task_after == begun
            }
        },
    }
}

impl Control {
    pub closed spec fn view(&self) -> ControlView {
        ControlView {
            lifecycle: self.lifecycle,
            next_job_id: self.next_job_id,
            jobs: self.jobs@,
            detached: self.detached_closure_failures.deep_view(),
        }
    }

    #[verifier::type_invariant]
    spec fn inv(&self) -> bool {
        self@.wf()
    }

    pub fn new() -> (control: Self)
        ensures
            control@ == (ControlView {
                lifecycle: RuntimeLifecycleState::Constructed,
                next_job_id: 0,
                jobs: Seq::empty(),
                detached: Seq::empty(),
            }),
    {
        let control = Control {
            lifecycle: RuntimeLifecycleState::Constructed,
            next_job_id: 0,
            jobs: Vec::new(),
            detached_closure_failures: Vec::new(),
        };
        assert(control@.detached =~= Seq::empty());
        control
    }

    /// Lets the runtime run, once.
    pub fn start(&mut self) -> (started: bool)
        ensures
            started == (old(self)@.lifecycle == RuntimeLifecycleState::Constructed),
            final(self)@ == if started {
                ControlView { lifecycle: RuntimeLifecycleState::Running, ..old(self)@ }
            } else {
                old(self)@
            },
    {
        proof {
            use_type_invariant(&*self);
        }
        if self.lifecycle == RuntimeLifecycleState::Constructed {
            self.lifecycle = RuntimeLifecycleState::Running;
            true
        } else {
            false
        }
    }

    /// Why no turn can start, before its budget is looked at.
    fn refusal(&self, agent_known: bool, agent_key: &String, max_in_flight: usize) -> (refusal: Option<
        AgentRuntimeError,
    >)
        ensures
            match refusal {
                Some(e) => self@.refuses(agent_known, *agent_key, max_in_flight) == Some(e),
                None => self@.refuses(agent_known, *agent_key, max_in_flight) is None,
            },
    {
        if self.lifecycle != RuntimeLifecycleState::Running {
            Some(AgentRuntimeError::Stopped)
        } else if !agent_known {
            Some(AgentRuntimeError::AgentNotFound { key: agent_key.clone() })
        } else if self.jobs.len() >= max_in_flight {
            Some(AgentRuntimeError::Overloaded)
        } else {
            None
        }
    }

    /// Starts a run of the task and puts one more turn in flight.
    fn enter(&mut self, task: &mut TaskBudget, limits: BudgetLimits, now: Duration, later: Duration) -> (result:
        Result<StartedTurn, AgentRuntimeError>)
        requires
            old(task).wf(),
        ensures
            final(task).wf(),
            admits(
                result,
                old(self)@,
                final(self)@,
                old(task)@,
                final(task)@,
                limits@,
                now.length(),
                later.length(),
            ),
    {
        proof {
            use_type_invariant(&*self);
        }
        let run = match task.begin_admission(limits, now, later) {
            Ok(run) => run,
            Err(error) => {
                return Err(AgentRuntimeError::Budget(error));
            },
        };
        let id: u64 = self.next_job_id;
        if id == u64::MAX {
            run.abandon(task, later);
            return Err(AgentRuntimeError::Overloaded);
        }
        let job = Job { id, reason: CancelReason::NotRequested };
        let mut jobs: Vec<Job> = Vec::new();
        std::mem::swap(&mut jobs, &mut self.jobs);
        jobs.push(job);
        self.next_job_id = id + 1;
        self.jobs = jobs;
        Ok(StartedTurn { job_id: id, run })
    }

    /// Starts a turn of a task that the host holds the ledger of. Clock samples are
    /// taken before and after the run is entered.
    pub fn start_turn(
        &mut self,
        config: &CanonicalAgentRuntimePlugin,
        agent_known: bool,
        session_id: &SessionId,
        agent_key: &String,
        task: &mut TaskBudget,
        limits: BudgetLimits,
        now: Duration,
        later: Duration,
    ) -> (result: Result<StartedTurn, AgentRuntimeError>)
        requires
            old(task).wf(),
        ensures
            final(task).wf(),
            match old(self)@.refuses(agent_known, *agent_key, config.max_in_flight) {
                Some(refusal) => {
                    &&& result == Err::<StartedTurn, AgentRuntimeError>(refusal)
                    &&& final(self)@ == old(self)@
                    &&& final(task)@ == old(task)@
                },
                None => if old(task)@.identity.session != session_id@ || old(
                    task,
                )@.identity.agent != agent_key@ {
                    &&& result == Err::<StartedTurn, AgentRuntimeError>(
                        AgentRuntimeError::Budget(BudgetError::IdentityMismatch),
                    )
                    &&& final(self)@ == old(self)@
                    &&& final(task)@ == old(task)@
                } else {
                    admits(
                        result,
                        old(self)@,
                        final(self)@,
                        old(task)@,
                        final(task)@,
                        limits@.meet(config.budget_limits@),
                        now.length(),
                        later.length(),
                    )
                },
            },
    {
        match self.refusal(agent_known, agent_key, config.max_in_flight) {
            Some(error) => {
                return Err(error);
            },
            None => {},
        }
        let identity = task.identity();
        if !identity.session_id.is_same(session_id) || !identity.agent_key.is_same(agent_key) {
            return Err(AgentRuntimeError::Budget(BudgetError::IdentityMismatch));
        }
        self.enter(task, limits.tightened_by(config.budget_limits), now, later)
    }

    /// Starts a turn of a task that exists for it alone, under the runtime's own limits.
    pub fn start_unbound_turn(
        &mut self,
        config: &CanonicalAgentRuntimePlugin,
        agent_known: bool,
        task_id: TaskId,
        session_id: SessionId,
        agent_key: String,
        opened: Duration,
        now: Duration,
        later: Duration,
    ) -> (result: Result<(StartedTurn, TaskBudget), AgentRuntimeError>)
        ensures
            ({
                let identity = IdentityView {
                    task: task_id@,
                    session: session_id@,
                    agent: agent_key@,
                };
                let limits = config.budget_limits@;
                let fresh = LedgerView::fresh(
                    identity,
                    limits.meet(limits),
                    TokenBudgetMode::Soft,
                    opened.length(),
                );
                match old(self)@.refuses(agent_known, agent_key, config.max_in_flight) {
                    Some(refusal) => {
                        &&& result == Err::<(StartedTurn, TaskBudget), AgentRuntimeError>(refusal)
                        &&& final(self)@ == old(self)@
                    },
                    None => if !identity.is_named() {
                        &&& result == Err::<(StartedTurn, TaskBudget), AgentRuntimeError>(
                            AgentRuntimeError::Budget(BudgetError::InvalidIdentity),
                        )
                        &&& final(self)@ == old(self)@
                    } else {
                        match result {
                            Ok((started, task)) => task.wf() && admits(
                                Ok(started),
                                old(self)@,
                                final(self)@,
                                fresh,
                                task@,
                                limits,
                                now.length(),
                                later.length(),
                            ),
                            Err(error) => exists|task: LedgerView|
                                admits(
                                    Err(error),
                                    old(self)@,
                                    final(self)@,
                                    fresh,
                                    task,
                                    limits,
                                    now.length(),
                                    later.length(),
                                ),
                        }
                    },
                }
            }),
    {
        match self.refusal(agent_known, &agent_key, config.max_in_flight) {
            Some(error) => {
                return Err(error);
            },
            None => {},
        }
        let identity = BudgetIdentity { task_id, session_id, agent_key };
        let limits = config.budget_limits;
        let mut task = match TaskBudget::new(
            identity,
            limits,
            limits,
            TokenBudgetMode::Soft,
            opened,
        ) {
            Ok(task) => task,
            Err(error) => {
                return Err(AgentRuntimeError::Budget(error));
            },
        };
        match self.enter(&mut task, limits, now, later) {
            Ok(started) => Ok((started, task)),
            Err(error) => Err(error),
        }
    }

    /// Asks one turn to stop. The answer says whether this was the first request, and
    /// its token is to be triggered.
    pub fn request_cancel(&mut self, id: u64, reason: CancelReason) -> (first: bool)
        ensures
            final(self)@ == old(self)@.with_reason(id, reason),
            first == exists|i: int|
                0 <= i < old(self)@.jobs.len() && (#[trigger] old(self)@.jobs[i]).id == id && old(
                    self,
                )@.jobs[i].reason == CancelReason::NotRequested,
    {
        proof {
            use_type_invariant(&*self);
        }
        let ghost before = self.jobs@;
        let ghost shown = self@;
        let mut jobs: Vec<Job> = Vec::new();
        let mut first: bool = false;
        let mut i: usize = 0;
        while i < self.jobs.len()
            invariant
                i <= self.jobs@.len(),
                self.jobs@ == before,
                jobs@.len() == i,
                forall|k: int|
                    0 <= k < i ==> #[trigger] jobs@[k] == if before[k].id == id {
                        asked(before[k], reason)
                    } else {
                        before[k]
                    },
                first == exists|k: int|
                    0 <= k < i && (#[trigger] before[k]).id == id && before[k].reason
                        == CancelReason::NotRequested,
            decreases self.jobs@.len() - i,
        {
            let job = self.jobs[i];
            if job.id == id && job.reason == CancelReason::NotRequested {
                first = true;
                jobs.push(Job { id: job.id, reason });
            } else {
                jobs.push(job);
            }
            i = i + 1;
        }
        self.jobs = jobs;
        assert(self@.jobs =~= shown.with_reason(id, reason).jobs);
        first
    }

    /// Why a turn was asked to stop. A turn that is no longer in flight was not asked.
    pub fn reason(&self, id: u64) -> (reason: CancelReason)
        ensures
            match reason {
                CancelReason::NotRequested => forall|i: int|
                    0 <= i < self@.jobs.len() && (#[trigger] self@.jobs[i]).id == id
                        ==> self@.jobs[i].reason == reason,
                _ => exists|i: int|
                    0 <= i < self@.jobs.len() && (#[trigger] self@.jobs[i]).id == id
                        && self@.jobs[i].reason == reason,
            },
    {
        proof {
            use_type_invariant(&*self);
        }
        let mut i: usize = 0;
        while i < self.jobs.len()
            invariant
                i <= self.jobs@.len(),
                self@.wf(),
                forall|k: int| 0 <= k < i ==> (#[trigger] self.jobs@[k]).id != id,
            decreases self.jobs@.len() - i,
        {
            if self.jobs[i].id == id {
                assert(self@.jobs[i as int].id == id);
                return self.jobs[i].reason;
            }
            i = i + 1;
        }
        CancelReason::NotRequested
    }

    fn forget(&mut self, id: u64)
        ensures
            final(self)@ == old(self)@.without_job(id, None),
    {
        proof {
            use_type_invariant(&*self);
        }
        let ghost shown = self@;
        let ghost keeps = |job: Job| job.id != id;
        let mut jobs: Vec<Job> = Vec::new();
        let mut i: usize = 0;
        proof {
            reveal(Seq::filter);
            assert(shown.jobs.take(0) =~= Seq::empty());
        }
        while i < self.jobs.len()
            invariant
                i <= self.jobs@.len(),
                self@ == shown,
                self.jobs@ == shown.jobs,
                shown.wf(),
                keeps == (|job: Job| job.id != id),
                jobs@ == shown.jobs.take(i as int).filter(keeps),
                forall|k: int| 0 <= k < jobs@.len() ==> exists|m: int|
                    0 <= m < i && (#[trigger] jobs@[k]) == shown.jobs[m],
                forall|k: int, n: int|
                    0 <= k < n < jobs@.len() ==> (#[trigger] jobs@[k]).id < (
                    #[trigger] jobs@[n]).id,
            decreases self.jobs@.len() - i,
        {
            let job = self.jobs[i];
            proof {
                reveal(Seq::filter);
                assert(shown.jobs.take(i + 1).drop_last() =~= shown.jobs.take(i as int));
                assert(shown.jobs.take(i + 1).last() == job);
            }
            if job.id != id {
                let ghost prior = jobs@;
                jobs.push(job);
                assert forall|k: int| 0 <= k < jobs@.len() implies exists|m: int|
                    0 <= m < i + 1 && (#[trigger] jobs@[k]) == shown.jobs[m] by {
                    if k < prior.len() {
                        assert(jobs@[k] == prior[k]);
                    } else {
                        assert(jobs@[k] == shown.jobs[i as int]);
                    }
                }
                assert forall|k: int, n: int| 0 <= k < n < jobs@.len() implies (
                #[trigger] jobs@[k]).id < (#[trigger] jobs@[n]).id by {
                    assert(jobs@[k] == prior[k]);
                    if n < prior.len() {
                        assert(jobs@[n] == prior[n]);
                    } else {
                        let m = choose|m: int| 0 <= m < i && prior[k] == shown.jobs[m];
                        assert(shown.jobs[m].id < shown.jobs[i as int].id);
                    }
                }
            }
            i = i + 1;
        }
        assert(shown.jobs.take(shown.jobs.len() as int) =~= shown.jobs);
        self.jobs = jobs;
    }

    fn keep_unheard(&mut self, text: String)
        ensures
            final(self)@ == (ControlView {
                detached: if old(self)@.detached.len() < MAX_DETACHED_FAILURES {
                    old(self)@.detached.push(text@)
                } else {
                    old(self)@.detached
                },
                ..old(self)@
            }),
    {
        proof {
            use_type_invariant(&*self);
        }
        if self.detached_closure_failures.len() < MAX_DETACHED_FAILURES {
            let ghost shown = self@.detached;
            let mut texts: Vec<String> = Vec::new();
            std::mem::swap(&mut texts, &mut self.detached_closure_failures);
            texts.push(text);
            assert(texts.deep_view() =~= shown.push(text@));
            self.detached_closure_failures = texts;
        }
    }

    /// A turn is over. `undelivered` is the outcome that nobody was there to hear, with
    /// the words for it; it is kept where it shows that the turn did not close. The
    /// answer says whether nothing is in flight any more.
    pub fn complete(
        &mut self,
        id: u64,
        undelivered: Option<(&Result<AgentTurnReport, AgentRuntimeError>, String)>,
    ) -> (drained: bool)
        ensures
            final(self)@ == old(self)@.without_job(
                id,
                match undelivered {
                    Some((outcome, text)) => if is_incomplete(*outcome) {
                        Some(text@)
                    } else {
                        None
                    },
                    None => None,
                },
            ),
            drained == (final(self)@.jobs.len() == 0),
    {
        match undelivered {
            Some((outcome, text)) => if incomplete(outcome) {
                self.keep_unheard(text);
            },
            None => {},
        }
        self.forget(id);
        self.jobs.len() == 0
    }

    /// The driver of a turn broke off before it closed.
    pub fn unwind(&mut self, id: u64) -> (drained: bool)
        ensures
            final(self)@ == old(self)@.without_job(
                id,
                Some(
                    "internal Agent driver "@ + decimal(id as nat) + " unwound before closure"@,
                ),
            ),
            drained == (final(self)@.jobs.len() == 0),
    {
        let mut text = "internal Agent driver ".to_owned();
        text.push_str(decimal_text(id).as_str());
        text.push_str(" unwound before closure");
        self.keep_unheard(text);
        self.forget(id);
        self.jobs.len() == 0
    }

    /// Asks every turn in flight to stop and lets no other in. A runtime that has
    /// stopped has nothing to do.
    pub fn begin_stop(&mut self) -> (stopping: bool)
        ensures
            stopping == (old(self)@.lifecycle != RuntimeLifecycleState::Stopped),
            final(self)@ == if stopping {
                old(self)@.stopping()
            } else {
                old(self)@
            },
    {
        proof {
            use_type_invariant(&*self);
        }
        if self.lifecycle == RuntimeLifecycleState::Stopped {
            return false;
        }
        let ghost before = self.jobs@;
        let ghost shown = self@;
        let mut jobs: Vec<Job> = Vec::new();
        let mut i: usize = 0;
        while i < self.jobs.len()
            invariant
                i <= self.jobs@.len(),
                self.jobs@ == before,
                jobs@.len() == i,
                forall|k: int|
                    0 <= k < i ==> #[trigger] jobs@[k] == asked(
                        before[k],
                        CancelReason::RuntimeStopping,
                    ),
            decreases self.jobs@.len() - i,
        {
            let job = self.jobs[i];
            if job.reason == CancelReason::NotRequested {
                jobs.push(Job { id: job.id, reason: CancelReason::RuntimeStopping });
            } else {
                jobs.push(job);
            }
            i = i + 1;
        }
        self.jobs = jobs;
        self.lifecycle = RuntimeLifecycleState::Stopping;
        assert(self@.jobs =~= shown.stopping().jobs);
        true
    }

    /// Whether nothing is in flight.
    pub fn drained(&self) -> (answer: bool)
        ensures
            answer == (self@.jobs.len() == 0),
    {
        self.jobs.len() == 0
    }

    /// Ends a stop once everything is drained: the words for what nobody heard.
    pub fn finish_stop(&mut self) -> (result: Result<(), String>)
        ensures
            final(self)@ == (ControlView {
                lifecycle: RuntimeLifecycleState::Stopped,
                detached: Seq::empty(),
                ..old(self)@
            }),
            match result {
                Ok(_) => old(self)@.detached.len() == 0,
                Err(text) => old(self)@.detached.len() > 0 && text@ == decimal(
                    old(self)@.detached.len(),
                ) + " detached admitted turn(s) failed canonical closure: "@ + joined(
                    old(self)@.detached,
                ),
            },
    {
        proof {
            use_type_invariant(&*self);
        }
        let ghost shown = self@;
        let mut texts: Vec<String> = Vec::new();
        assert(texts.deep_view() =~= Seq::empty());
        self.lifecycle = RuntimeLifecycleState::Stopped;
        std::mem::swap(&mut texts, &mut self.detached_closure_failures);
        assert(self@.detached =~= Seq::empty());
        assert(texts.deep_view() == shown.detached);
        if texts.len() == 0 {
            return Ok(());
        }
        let mut message = decimal_text(texts.len() as u64);
        message.push_str(" detached admitted turn(s) failed canonical closure: ");
        let list = join(&texts);
        message.push_str(list.as_str());
        Err(message)
    }
}

/// Texts with "; " between them.
pub open spec fn joined(texts: Seq<Seq<char>>) -> Seq<char>
    decreases texts.len(),
{
    if texts.len() == 0 {
        Seq::empty()
    } else if texts.len() == 1 {
        texts[0]
    } else {
        joined(texts.drop_last()) + "; "@ + texts.last()
    }
}

fn join(texts: &Vec<String>) -> (text: String)
    ensures
        text@ == joined(texts.deep_view()),
{
    let ghost views = texts.deep_view();
    let mut text = String::new();
    let mut i: usize = 0;
    assert(views.take(0) =~= Seq::empty());
    while i < texts.len()
        invariant
            i <= texts@.len(),
            views == texts.deep_view(),
            text@ == joined(views.take(i as int)),
        decreases texts@.len() - i,
    {
        proof {
            assert(views[i as int] == texts@[i as int]@);
            assert(views.take(i + 1).drop_last() =~= views.take(i as int));
            assert(views.take(i + 1).last() == views[i as int]);
        }
        if i > 0 {
            text.push_str("; ");
        }
        text.push_str(texts[i].as_str());
        assert(i == 0 ==> text@ =~= texts@[0]@);
        i = i + 1;
    }
    assert(views.take(views.len() as int) =~= views);
    text
}

/// The outcome shows that a turn did not close, or that its claim was not replaced.
pub open spec fn is_incomplete(outcome: Result<AgentTurnReport, AgentRuntimeError>) -> bool {
    match outcome {
        Ok(_) => false,
        Err(AgentRuntimeError::Turn(f)) => closure_of(f.terminal_attempt, f.settlement_attempt)
            != TurnClosureStatus::Closed,
        Err(AgentRuntimeError::Durability { .. }) => true,
        Err(AgentRuntimeError::RecoveryBoundary { .. }) => true,
        Err(_) => false,
    }
}

fn incomplete(outcome: &Result<AgentTurnReport, AgentRuntimeError>) -> (answer: bool)
    ensures
        answer == is_incomplete(*outcome),
{
    match outcome {
        Ok(_) => false,
        Err(AgentRuntimeError::Turn(f)) => f.closure_status() != TurnClosureStatus::Closed,
        Err(AgentRuntimeError::Durability { .. }) => true,
        Err(AgentRuntimeError::RecoveryBoundary { .. }) => true,
        Err(_) => false,
    }
}

/// Once a stop has begun no turn is let in, every turn in flight has been asked to
/// stop, and a reason given earlier still stands.
pub proof fn stopping_lets_nothing_in(c: ControlView, agent_key: String, max_in_flight: usize, i: int)
    requires
        0 <= i < c.jobs.len(),
    ensures
        c.stopping().refuses(true, agent_key, max_in_flight) == Some(AgentRuntimeError::Stopped),
        c.stopping().jobs.len() == c.jobs.len(),
        c.stopping().jobs[i].id == c.jobs[i].id,
        c.stopping().jobs[i].reason != CancelReason::NotRequested,
        c.jobs[i].reason != CancelReason::NotRequested ==> c.stopping().jobs[i] == c.jobs[i],
{
}

/// A runtime never has more turns in flight than it allows.
pub proof fn capacity_is_kept(c: ControlView, agent_known: bool, agent_key: String, max_in_flight: usize)
    requires
        c.refuses(agent_known, agent_key, max_in_flight) is None,
    ensures
        c.with_job().jobs.len() <= max_in_flight,
{
}

} // verus!
