use vstd::prelude::*;
use crate::guc::{observed, Settings};

verus! {

/// What one worker process keeps from one hook to the next.
#[derive(Clone, Copy, PartialEq, Eq, Debug, Structural)]
pub struct Worker {
    /// How many `run` and `finish` phases are open around the current one.
    pub nesting_level: i32,
    /// Whether the current top-level statement was picked by the sample draw.
    pub current_query_sampled: bool,
}

/// What the start of a statement does to the sampled flag.
#[derive(Clone, Copy, PartialEq, Eq, Debug, Structural)]
pub enum Sampling {
    /// A top-level statement with a threshold configured, in a process that
    /// is no parallel worker: the flag is drawn anew.
    Draw,
    /// Any other top-level statement: the flag is cleared.
    Clear,
    /// A nested statement: the flag stays as it is.
    Keep,
}

/// What the start of a statement does to the flag of `worker`.
pub open spec fn sampling(settings: Settings, worker: Worker, parallel_worker: bool) -> Sampling {
    if !worker.at_top_level() {
        Sampling::Keep
    } else if settings.threshold_configured() && !parallel_worker {
        Sampling::Draw
    } else {
        Sampling::Clear
    }
}

impl Worker {
    pub open spec fn initial() -> Worker {
        Worker { nesting_level: 0, current_query_sampled: false }
    }

    /// A statement that starts now is a top-level one.
    pub open spec fn at_top_level(self) -> bool {
        self.nesting_level == 0
    }

    /// A worker between statements: nothing open, nothing sampled.
    pub fn new() -> (worker: Worker)
        ensures
            worker == Worker::initial(),
    {
        Worker { nesting_level: 0, current_query_sampled: false }
    }

    /// The worker inside one more `run` or `finish` phase.
    pub open spec fn entered(self) -> Worker {
        Worker { nesting_level: (self.nesting_level + 1) as i32, ..self }
    }

    /// The worker outside the innermost `run` or `finish` phase.
    pub open spec fn left(self) -> Worker {
        Worker { nesting_level: (self.nesting_level - 1) as i32, ..self }
    }

    /// The worker after the start of a statement. `draw_hit` says whether the
    /// random draw fell below the sample rate; it counts only where a draw is
    /// due.
    pub open spec fn started(
        self,
        settings: Settings,
        parallel_worker: bool,
        draw_hit: bool,
    ) -> Worker {
        match sampling(settings, self, parallel_worker) {
            Sampling::Draw => Worker { current_query_sampled: draw_hit, ..self },
            Sampling::Clear => Worker { current_query_sampled: false, ..self },
            Sampling::Keep => self,
        }
    }

    /// Whether the statement that starts now takes a random draw.
    pub fn needs_sample_draw(&self, settings: &Settings, parallel_worker: bool) -> (draw: bool)
        ensures
            draw == (sampling(*settings, *self, parallel_worker) == Sampling::Draw),
            draw ==> self.nesting_level == 0 && !parallel_worker && settings.log_min_duration >= 0,
    {
        self.nesting_level == 0 && settings.log_min_duration >= 0 && !parallel_worker
    }

    /// Sets the sampled flag at the start of a statement. A nested statement
    /// leaves the worker as it is.
    pub fn begin_statement(&mut self, settings: &Settings, parallel_worker: bool, draw_hit: bool)
        ensures
            *final(self) == old(self).started(*settings, parallel_worker, draw_hit),
            final(self).nesting_level == old(self).nesting_level,
            old(self).nesting_level != 0 ==> *final(self) == *old(self),
    {
        if self.nesting_level == 0 {
            if settings.log_min_duration >= 0 && !parallel_worker {
                self.current_query_sampled = draw_hit;
            } else {
                self.current_query_sampled = false;
            }
        }
    }

    /// Enters a `run` or `finish` phase, just before it is handed on.
    pub fn enter(&mut self)
        requires
            old(self).nesting_level < i32::MAX,
        ensures
            *final(self) == old(self).entered(),
            final(self).nesting_level == old(self).nesting_level + 1,
    {
        self.nesting_level = self.nesting_level + 1;
    }

    /// Leaves a `run` or `finish` phase, whichever way the phase ended.
    pub fn leave(&mut self)
        requires
            old(self).nesting_level > i32::MIN,
        ensures
            *final(self) == old(self).left(),
            final(self).nesting_level == old(self).nesting_level - 1,
    {
        self.nesting_level = self.nesting_level - 1;
    }
}

/// One thing that happens to a worker: a statement starts, a `run` or
/// `finish` phase is entered, or the innermost phase is left.
#[derive(Clone, Copy, PartialEq, Eq, Debug, Structural)]
pub enum WorkerEvent {
    Start { settings: Settings, parallel_worker: bool, draw_hit: bool },
    Enter,
    Leave,
}

/// How many more phases `events` enter than they leave.
pub open spec fn depth_change(events: Seq<WorkerEvent>) -> int
    decreases events.len(),
{
    if events.len() == 0 {
        0
    } else {
        depth_change(events.drop_last()) + match events.last() {
            WorkerEvent::Start { .. } => 0int,
            WorkerEvent::Enter => 1int,
            WorkerEvent::Leave => -1int,
        }
    }
}

/// The worker after `events`, taken in order.
pub open spec fn replayed(worker: Worker, events: Seq<WorkerEvent>) -> Worker
    decreases events.len(),
{
    if events.len() == 0 {
        worker
    } else {
        let before = replayed(worker, events.drop_last());
        match events.last() {
            WorkerEvent::Start { settings, parallel_worker, draw_hit } => before.started(
                settings,
                parallel_worker,
                draw_hit,
            ),
            WorkerEvent::Enter => before.entered(),
            WorkerEvent::Leave => before.left(),
        }
    }
}

/// Whether the nesting level stays within the counter's range all the way
/// through `events`.
pub open spec fn within_range(worker: Worker, events: Seq<WorkerEvent>) -> bool {
    forall|n: int|
        0 <= n <= events.len() ==> i32::MIN <= worker.nesting_level + #[trigger] depth_change(
            events.take(n),
        ) <= i32::MAX
}

/// Whether some phase is open all the way through `events`: the nesting
/// level is zero neither before them nor after any of them.
pub open spec fn stays_nested(worker: Worker, events: Seq<WorkerEvent>) -> bool {
    forall|n: int|
        0 <= n <= events.len() ==> worker.nesting_level + #[trigger] depth_change(events.take(n))
            != 0
}

/// Leaving a phase undoes entering it: the level and the sampled flag are
/// what they were before, whichever way the phase ended in between.
pub proof fn lemma_leave_undoes_enter(worker: Worker)
    requires
        worker.nesting_level < i32::MAX,
    ensures
        worker.entered().left() == worker,
        worker.entered().nesting_level == worker.nesting_level + 1,
{
}

/// Whatever starts, is entered and is left, the nesting level moves by the
/// enters less the leaves. So events that leave every phase they entered
/// restore the level.
pub proof fn lemma_nesting_restored(worker: Worker, events: Seq<WorkerEvent>)
    requires
        within_range(worker, events),
    ensures
        replayed(worker, events).nesting_level == worker.nesting_level + depth_change(events),
        depth_change(events) == 0 ==> replayed(worker, events).nesting_level
            == worker.nesting_level,
    decreases events.len(),
{
    if events.len() > 0 {
        let earlier = events.drop_last();
        assert forall|n: int| 0 <= n <= earlier.len() implies i32::MIN <= worker.nesting_level
            + #[trigger] depth_change(earlier.take(n)) <= i32::MAX by {
            assert(earlier.take(n) == events.take(n));
        }
        lemma_nesting_restored(worker, earlier);
        assert(events.take(events.len() as int) == events);
    }
}

/// While some phase stays open, nothing alters the sampled flag, however
/// many statements start. So events that leave every phase they entered,
/// none of them at top level, restore the worker.
pub proof fn lemma_nested_events_keep_flag(worker: Worker, events: Seq<WorkerEvent>)
    requires
        within_range(worker, events),
        stays_nested(worker, events),
    ensures
        replayed(worker, events).current_query_sampled == worker.current_query_sampled,
        depth_change(events) == 0 ==> replayed(worker, events) == worker,
    decreases events.len(),
{
    lemma_nesting_restored(worker, events);
    if events.len() > 0 {
        let earlier = events.drop_last();
        assert forall|n: int| 0 <= n <= earlier.len() implies i32::MIN <= worker.nesting_level
            + #[trigger] depth_change(earlier.take(n)) <= i32::MAX && worker.nesting_level
            + depth_change(earlier.take(n)) != 0 by {
            assert(earlier.take(n) == events.take(n));
        }
        lemma_nested_events_keep_flag(worker, earlier);
        lemma_nesting_restored(worker, earlier);
        assert(earlier.take(earlier.len() as int) == earlier);
    }
}

/// No statement that starts inside an open phase is observed, whatever the
/// settings and the sampled flag.
pub proof fn lemma_nested_start_not_observed(settings: Settings, worker: Worker)
    requires
        0 <= worker.nesting_level < i32::MAX,
    ensures
        !observed(settings, worker.entered()),
{
}

/// A statement that starts inside an open phase takes no draw and leaves the
/// sampled flag as it is; neither does a parallel worker ever draw.
pub proof fn lemma_draws_only_at_top_level(
    settings: Settings,
    worker: Worker,
    parallel_worker: bool,
    draw_hit: bool,
)
    ensures
        sampling(settings, worker, parallel_worker) == Sampling::Draw ==> worker.nesting_level == 0
            && !parallel_worker,
        worker.nesting_level != 0 ==> worker.started(settings, parallel_worker, draw_hit)
            == worker,
        worker.nesting_level == 0 && parallel_worker ==> !worker.started(
            settings,
            parallel_worker,
            draw_hit,
        ).current_query_sampled,
        !draw_hit && worker.nesting_level == 0 ==> !observed(
            settings,
            worker.started(settings, parallel_worker, draw_hit),
        ),
{
}

} // verus!
