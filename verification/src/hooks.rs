use vstd::prelude::*;
use crate::guc::{auto_explain_enabled, observed, Settings};
use crate::instrument::{instrumented_options, start_instrument_options};
use crate::report::{plan_report, planned_report, ReportOptions};
use crate::worker::Worker;

verus! {

/// A worker whose number is not negative is a parallel worker.
pub fn is_parallel_worker(parallel_worker_number: i32) -> (parallel: bool)
    ensures
        parallel == (parallel_worker_number >= 0),
{
    parallel_worker_number >= 0
}

/// The four phases of an execution that the hooks stand in.
#[derive(Clone, Copy, PartialEq, Eq, Debug, Structural)]
pub enum Phase {
    Start,
    Run,
    Finish,
    End,
}

/// Where a hook hands the phase on to.
#[derive(Clone, Copy, PartialEq, Eq, Debug, Structural)]
pub enum Delegate {
    /// The hook that was installed before this one.
    Previous,
    /// The host's own implementation of the phase.
    Standard,
}

/// Which hooks were found installed when this one took their place.
#[derive(Clone, Copy, PartialEq, Eq, Debug, Structural)]
pub struct HookChain {
    pub previous_start: bool,
    pub previous_run: bool,
    pub previous_finish: bool,
    pub previous_end: bool,
}

impl HookChain {
    pub open spec fn has_previous(self, phase: Phase) -> bool {
        match phase {
            Phase::Start => self.previous_start,
            Phase::Run => self.previous_run,
            Phase::Finish => self.previous_finish,
            Phase::End => self.previous_end,
        }
    }

    pub open spec fn target(self, phase: Phase) -> Delegate {
        if self.has_previous(phase) {
            Delegate::Previous
        } else {
            Delegate::Standard
        }
    }

    /// Where the hook of `phase` hands on to: the hook that was there before
    /// it where there was one, the host's own implementation otherwise.
    pub fn delegate(&self, phase: Phase) -> (target: Delegate)
        ensures
            target == self.target(phase),
            target == Delegate::Previous <==> self.has_previous(phase),
    {
        let previous = match phase {
            Phase::Start => self.previous_start,
            Phase::Run => self.previous_run,
            Phase::Finish => self.previous_finish,
            Phase::End => self.previous_end,
        };
        if previous {
            Delegate::Previous
        } else {
            Delegate::Standard
        }
    }
}

/// Records which hooks were installed before this one. It is called once,
/// when the process starts, with what each extension point then held.
pub fn init(
    previous_start: bool,
    previous_run: bool,
    previous_finish: bool,
    previous_end: bool,
) -> (chain: HookChain)
    ensures
        chain == (HookChain { previous_start, previous_run, previous_finish, previous_end }),
{
    HookChain { previous_start, previous_run, previous_finish, previous_end }
}

/// What the `start` hook does with an execution before it hands it on.
#[derive(Clone, Copy, PartialEq, Eq, Debug, Structural)]
pub struct StartPlan {
    /// The instrumentation options that the execution is handed on with.
    pub instrument_options: i32,
    pub delegate: Delegate,
}

/// What the `end` hook does with an execution.
#[derive(Clone, Copy, PartialEq, Eq, Debug, Structural)]
pub struct EndPlan {
    /// The report that is rendered and logged before the execution is handed
    /// on, where one is owed.
    pub report: Option<ReportOptions>,
    pub delegate: Delegate,
}

/// The part of the `start` hook that comes before the execution is handed
/// on: the sampled flag is set for the statement, and the execution's
/// instrumentation options are computed from the worker as it then stands.
/// `draw_hit` says whether the random draw fell below the sample rate, where
/// `needs_sample_draw` asked for one.
pub fn explain_executor_start(
    worker: &mut Worker,
    chain: &HookChain,
    settings: &Settings,
    parallel_worker: bool,
    draw_hit: bool,
    eflags: i32,
    options: i32,
) -> (plan: StartPlan)
    ensures
        *final(worker) == old(worker).started(*settings, parallel_worker, draw_hit),
        plan.instrument_options == instrumented_options(
            *settings,
            *final(worker),
            eflags,
            options,
        ),
        plan.delegate == chain.target(Phase::Start),
        plan.instrument_options & options == options,
        old(worker).nesting_level != 0 ==> *final(worker) == *old(worker)
            && plan.instrument_options == options,
        settings.log_min_duration < 0 ==> plan.instrument_options == options,
{
    worker.begin_statement(settings, parallel_worker, draw_hit);
    StartPlan {
        instrument_options: start_instrument_options(settings, worker, eflags, options),
        delegate: chain.delegate(Phase::Start),
    }
}

/// Whether the `start` hook, once the execution has been handed on, gives
/// it a time accumulator: the statement is observed and has none yet.
pub fn needs_time_accumulator(
    settings: &Settings,
    worker: &Worker,
    has_accumulator: bool,
) -> (needed: bool)
    ensures
        needed == (observed(*settings, *worker) && !has_accumulator),
{
    auto_explain_enabled(settings, worker) && !has_accumulator
}

/// The `run` hook up to the point where it hands on: the phase is entered.
/// The hook calls `leave` when the phase has ended, however it ended.
pub fn explain_executor_run(worker: &mut Worker, chain: &HookChain) -> (target: Delegate)
    requires
        old(worker).nesting_level < i32::MAX,
    ensures
        *final(worker) == old(worker).entered(),
        final(worker).left() == *old(worker),
        target == chain.target(Phase::Run),
{
    worker.enter();
    chain.delegate(Phase::Run)
}

/// The `finish` hook up to the point where it hands on: the phase is
/// entered. The hook calls `leave` when the phase has ended, however it
/// ended.
pub fn explain_executor_finish(worker: &mut Worker, chain: &HookChain) -> (target: Delegate)
    requires
        old(worker).nesting_level < i32::MAX,
    ensures
        *final(worker) == old(worker).entered(),
        final(worker).left() == *old(worker),
        target == chain.target(Phase::Finish),
{
    worker.enter();
    chain.delegate(Phase::Finish)
}

/// The `end` hook: whether a report is owed, and where the execution is
/// handed on to, which does not depend on the report. `elapsed` is the time
/// on the execution's accumulator, in nanoseconds, where it has one.
pub fn explain_executor_end(
    chain: &HookChain,
    settings: &Settings,
    instrument_options: i32,
    elapsed: Option<u64>,
) -> (plan: EndPlan)
    ensures
        plan.report == planned_report(*settings, instrument_options, elapsed),
        plan.delegate == chain.target(Phase::End),
{
    EndPlan {
        report: plan_report(settings, instrument_options, elapsed),
        delegate: chain.delegate(Phase::End),
    }
}

} // verus!
