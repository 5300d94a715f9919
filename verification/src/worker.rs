//! What the worker threads decide: which tasks to run in a cycle, how a
//! source worker's state changes on each event, and what it subscribes to.
use std::sync::Arc;

use vstd::prelude::*;

use crate::event::{
    BlockingEventQueue,
    Event,
    EventPoll,
    EventTag,
    MemoryState,
    MemoryStateTransition,
    PerformanceMetrics,
    PerformanceMetricsSummary,
    spec_tag_of,
};
use crate::executor::TaskExecutorLock;
use crate::pipeline::{PipelineDerivatives, TaskGraph};
use crate::repositories::Repositories;
use crate::task::{MetricsUpdateByTaskExecution, TaskContext, reported_by_run_of_id, task_ids_view};
use crate::task_id::{TaskId, TaskIdView, TaskKind};

verus! {

/// How long a worker waits when it has no task to run, in milliseconds.
pub const TASK_WAIT_MSEC: u64 = 100;

/// How long a worker yields when a pump had no input, in microseconds.
pub const WAIT_ON_NO_INPUT_MICROS: u64 = 100;

/// Chooses the tasks that a worker runs in one cycle.
pub trait Scheduler {
    /// The series of tasks that the scheduler chooses.
    spec fn spec_next_task_series(&self, graph: TaskGraph, metrics: PerformanceMetrics) -> Seq<
        TaskIdView,
    >;

    /// The next series of tasks to run: tasks of `graph`.
    fn next_task_series(&self, graph: &TaskGraph, metrics: &PerformanceMetrics) -> (r: Vec<TaskId>)
        ensures
            task_ids_view(r@) == self.spec_next_task_series(*graph, *metrics),
            forall|i: int| 0 <= i < r@.len() ==> graph.task_ids().contains(#[trigger] r@[i]@),
    ;
}

/// Schedules the source tasks, in edge order.
#[derive(Debug, Clone, Copy, PartialEq, Eq, Structural)]
pub struct SourceScheduler;

/// Schedules the pump tasks and then the sink tasks, each in edge order.
#[derive(Debug, Clone, Copy, PartialEq, Eq, Structural)]
pub struct PumpSinkScheduler;

proof fn lemma_filtered_contained(ids: Seq<TaskIdView>, kind: TaskKind, r: Seq<TaskId>)
    requires
        task_ids_view(r) == ids.filter(|t: TaskIdView| t.kind == kind),
    ensures
        forall|i: int| 0 <= i < r.len() ==> ids.contains(#[trigger] r[i]@) && r[i]@.kind == kind,
{
    let pred = |t: TaskIdView| t.kind == kind;
    lemma_filter_subset(ids, pred);
    assert forall|i: int| 0 <= i < r.len() implies ids.contains(#[trigger] r[i]@) && r[i]@.kind
        == kind by {
        assert(task_ids_view(r)[i] == r[i]@);
        assert(ids.filter(pred)[i] == r[i]@);
    }
}

/// What a filter keeps comes from the sequence and satisfies the predicate.
proof fn lemma_filter_subset<A>(s: Seq<A>, pred: spec_fn(A) -> bool)
    ensures
        forall|i: int|
            0 <= i < s.filter(pred).len() ==> s.contains(#[trigger] s.filter(pred)[i]) && pred(
                s.filter(pred)[i],
            ),
    decreases s.len(),
{
    reveal(Seq::filter);
    if s.len() > 0 {
        lemma_filter_subset(s.drop_last(), pred);
        let f = s.filter(pred);
        let g = s.drop_last().filter(pred);
        assert forall|i: int| 0 <= i < f.len() implies s.contains(#[trigger] f[i]) && pred(f[i]) by {
            if i < g.len() {
                assert(f[i] == g[i]);
                assert(s.drop_last().contains(g[i]));
                let j = choose|j: int| 0 <= j < s.drop_last().len() && s.drop_last()[j] == g[i];
                assert(s[j] == g[i]);
            } else {
                assert(f[i] == s.last());
                assert(s[s.len() - 1] == s.last());
            }
        }
    }
}

impl Scheduler for SourceScheduler {
    open spec fn spec_next_task_series(&self, graph: TaskGraph, metrics: PerformanceMetrics) -> Seq<
        TaskIdView,
    > {
        graph.task_ids().filter(|t: TaskIdView| t.kind == TaskKind::Source)
    }

    /// The source tasks of the graph, in edge order.
    fn next_task_series(&self, graph: &TaskGraph, metrics: &PerformanceMetrics) -> (r: Vec<TaskId>)
        ensures
            task_ids_view(r@) == graph.task_ids().filter(|t: TaskIdView| t.kind == TaskKind::Source),
    {
        let r = graph.tasks_of_kind(TaskKind::Source);
        proof {
            lemma_filtered_contained(graph.task_ids(), TaskKind::Source, r@);
        }
        r
    }
}

impl Scheduler for PumpSinkScheduler {
    open spec fn spec_next_task_series(&self, graph: TaskGraph, metrics: PerformanceMetrics) -> Seq<
        TaskIdView,
    > {
        graph.task_ids().filter(|t: TaskIdView| t.kind == TaskKind::Pump) + graph.task_ids().filter(
            |t: TaskIdView| t.kind == TaskKind::Sink,
        )
    }

    /// The pump tasks and then the sink tasks of the graph, each in edge
    /// order.
    fn next_task_series(&self, graph: &TaskGraph, metrics: &PerformanceMetrics) -> (r: Vec<TaskId>)
        ensures
            task_ids_view(r@) == graph.task_ids().filter(|t: TaskIdView| t.kind == TaskKind::Pump)
                + graph.task_ids().filter(|t: TaskIdView| t.kind == TaskKind::Sink),
    {
        let mut r = graph.tasks_of_kind(TaskKind::Pump);
        let mut sinks = graph.tasks_of_kind(TaskKind::Sink);
        proof {
            lemma_filtered_contained(graph.task_ids(), TaskKind::Pump, r@);
            lemma_filtered_contained(graph.task_ids(), TaskKind::Sink, sinks@);
        }
        let ghost r0 = r@;
        let ghost s0 = sinks@;
        r.append(&mut sinks);
        assert forall|i: int| 0 <= i < r@.len() implies graph.task_ids().contains(#[trigger] r@[i]@) by {
            if i < r0.len() {
                assert(r@[i] == r0[i]);
            } else {
                assert(r@[i] == s0[i - r0.len()]);
            }
        }
        assert(task_ids_view(r@) =~= task_ids_view(r0) + task_ids_view(s0));
        r
    }
}

/// What a worker thread is given.
pub struct TaskWorkerThreadArg {
    pub task_executor_lock: Arc<TaskExecutorLock>,
    pub repos: Arc<Repositories>,
}

impl TaskWorkerThreadArg {
    pub fn new(task_executor_lock: Arc<TaskExecutorLock>, repos: Arc<Repositories>) -> (r:
        TaskWorkerThreadArg)
        ensures
            r.task_executor_lock == task_executor_lock,
            r.repos == repos,
    {
        TaskWorkerThreadArg { task_executor_lock, repos }
    }

    pub open spec fn wf(&self) -> bool {
        self.repos.wf()
    }
}

/// The state of a worker's main loop.
pub struct TaskWorkerLoopState<S> {
    pub pipeline_derivatives: Arc<PipelineDerivatives>,
    pub metrics: Arc<PerformanceMetrics>,
    pub scheduler: S,
}

impl<S> TaskWorkerLoopState<S> {
    pub open spec fn wf(&self) -> bool {
        self.pipeline_derivatives.wf()
    }
}

/// What one cycle of a worker's main loop did.
#[derive(Debug, Clone, Copy, PartialEq, Eq, Structural)]
pub enum CycleOutcome {
    /// Tasks ran.
    Executed,
    /// Tasks ran, and a pump found no input row: the worker should yield
    /// for `WAIT_ON_NO_INPUT_MICROS`, so that source tasks get time to feed
    /// rows.
    ExecutedWithoutInput,
    /// No task was scheduled: the worker should wait `TASK_WAIT_MSEC`.
    NoTask,
    /// A pipeline update is going on: nothing ran.
    Skipped,
}

/// What a cycle that could run tasks did: no task when the series was
/// empty, else whether a pump found no input row.
pub open spec fn spec_cycle_outcome(series_len: nat, pump_without_input: bool) -> CycleOutcome {
    if series_len == 0 {
        CycleOutcome::NoTask
    } else if pump_without_input {
        CycleOutcome::ExecutedWithoutInput
    } else {
        CycleOutcome::Executed
    }
}

/// The outcome of a cycle that held the task-execution lock and chose a
/// series of `series_len` tasks.
pub fn cycle_outcome(series_len: usize, pump_without_input: bool) -> (r: CycleOutcome)
    ensures
        r == spec_cycle_outcome(series_len as nat, pump_without_input),
{
    if series_len == 0 {
        CycleOutcome::NoTask
    } else if pump_without_input {
        CycleOutcome::ExecutedWithoutInput
    } else {
        CycleOutcome::Executed
    }
}

/// Whether a run of a task of `kind` that reported `metrics` was that of a
/// pump that found no input row.
pub fn is_pump_without_input(kind: TaskKind, metrics: &MetricsUpdateByTaskExecution) -> (r: bool)
    ensures
        r == (kind == TaskKind::Pump && metrics.in_queues_metrics@.len() == 0),
{
    kind == TaskKind::Pump && metrics.in_queues_metrics.len() == 0
}

/// The run was that of a pump that found no input row.
pub open spec fn is_pump_run_without_input(m: MetricsUpdateByTaskExecution) -> bool {
    m.task_metrics.task.kind == TaskKind::Pump && m.in_queues_metrics@.len() == 0
}

/// The series of tasks that the state's scheduler chooses from its task
/// graph.
pub open spec fn chosen_series<S: Scheduler>(state: &TaskWorkerLoopState<S>) -> Seq<TaskIdView> {
    state.scheduler.spec_next_task_series(state.pipeline_derivatives.task_graph, *state.metrics)
}

/// Runs tasks on behalf of the worker threads.
pub struct TaskWorkerThreadHandler;

impl TaskWorkerThreadHandler {
    /// One cycle: unless a pipeline update is going on, runs the series of
    /// tasks that the scheduler chooses, or reports that there was none.
    pub fn main_loop_cycle<S: Scheduler>(
        current_state: TaskWorkerLoopState<S>,
        thread_arg: &TaskWorkerThreadArg,
    ) -> (r: (TaskWorkerLoopState<S>, CycleOutcome))
        requires
            current_state.wf(),
            thread_arg.wf(),
        ensures
            r.0 == current_state,
            ({
                let series = chosen_series(&current_state);
                &&& r.1 is Skipped || r.1 == spec_cycle_outcome(series.len(), r.1 is ExecutedWithoutInput)
                &&& r.1 is ExecutedWithoutInput ==> exists|i: int|
                    0 <= i < series.len() && (#[trigger] series[i]).kind == TaskKind::Pump
            }),
    {
        let task_executor_lock = &thread_arg.task_executor_lock;
        let outcome = match task_executor_lock.try_task_execution() {
            Some(_lock) => Self::run_cycle(&current_state, thread_arg),
            None => CycleOutcome::Skipped,
        };
        (current_state, outcome)
    }

    /// The state after an event, for a worker that follows pipeline
    /// updates only: a new pipeline replaces the old one, any other event
    /// changes nothing.
    pub fn follow_pipeline_updates<S>(current_state: TaskWorkerLoopState<S>, event: Event) -> (r:
        TaskWorkerLoopState<S>)
        ensures
            match event {
                Event::UpdatePipeline { pipeline_derivatives } => r.pipeline_derivatives
                    == pipeline_derivatives && r.metrics == current_state.metrics && r.scheduler
                    == current_state.scheduler,
                _ => r == current_state,
            },
    {
        match event {
            Event::UpdatePipeline { pipeline_derivatives } => {
                let mut state = current_state;
                state.pipeline_derivatives = pipeline_derivatives;
                state
            },
            _ => current_state,
        }
    }

    /// A cycle that holds the task-execution lock: runs the series of tasks
    /// that the scheduler chooses, or reports that there was none.
    pub fn run_cycle<S: Scheduler>(current_state: &TaskWorkerLoopState<S>, thread_arg: &TaskWorkerThreadArg) -> (r:
        CycleOutcome)
        requires
            current_state.wf(),
            thread_arg.wf(),
        ensures
            !(r is Skipped),
            r == spec_cycle_outcome(chosen_series(current_state).len(), r is ExecutedWithoutInput),
            r is ExecutedWithoutInput ==> exists|i: int|
                0 <= i < chosen_series(current_state).len() && (#[trigger] chosen_series(
                    current_state,
                )[i]).kind == TaskKind::Pump,
    {
        let task_series = current_state.scheduler.next_task_series(
            &current_state.pipeline_derivatives.task_graph,
            &current_state.metrics,
        );
        let pump_without_input = if task_series.len() > 0 {
            let runs = Self::execute_task_series(task_series.as_slice(), current_state, thread_arg);
            pump_without_input_in(runs.as_slice())
        } else {
            false
        };
        let ghost series = chosen_series(current_state);
        proof {
            assert(series.len() == task_series@.len());
            if pump_without_input {
                let k = choose|k: int|
                    0 <= k < task_series@.len() && (#[trigger] task_series@[k]).kind == TaskKind::Pump;
                assert(series[k] == task_series@[k]@);
                assert(series[k].kind == TaskKind::Pump);
            }
        }
        cycle_outcome(task_series.len(), pump_without_input)
    }

    /// Runs each task of the series once, in order, each with a context of
    /// its own identifier, the state's pipeline and the shared
    /// repositories; gives the metrics of each run, in the same order.
    pub fn execute_task_series<S>(
        task_series: &[TaskId],
        current_state: &TaskWorkerLoopState<S>,
        thread_arg: &TaskWorkerThreadArg,
    ) -> (runs: Vec<MetricsUpdateByTaskExecution>)
        requires
            current_state.wf(),
            thread_arg.wf(),
            forall|i: int|
                0 <= i < task_series@.len() ==> current_state.pipeline_derivatives.task_graph.task_ids().contains(
                    #[trigger] task_series@[i]@,
                ),
        ensures
            runs@.len() == task_series@.len(),
            forall|k: int|
                0 <= k < runs@.len() ==> (#[trigger] runs@[k]).task_metrics.task == task_series@[k],
            forall|k: int|
                0 <= k < runs@.len() ==> reported_by_run_of_id(#[trigger] runs@[k], task_series@[k]@),
    {
        let mut runs: Vec<MetricsUpdateByTaskExecution> = Vec::new();
        let n = task_series.len();
        let mut i: usize = 0;
        while i < n
            invariant
                n == task_series@.len(),
                i <= n,
                runs@.len() == i,
                current_state.wf(),
                thread_arg.wf(),
                forall|k: int|
                    0 <= k < n ==> current_state.pipeline_derivatives.task_graph.task_ids().contains(
                        #[trigger] task_series@[k]@,
                    ),
                forall|k: int|
                    0 <= k < i ==> (#[trigger] runs@[k]).task_metrics.task == task_series@[k],
                forall|k: int|
                    0 <= k < i ==> reported_by_run_of_id(#[trigger] runs@[k], task_series@[k]@),
            decreases n - i,
        {
            let task_id = &task_series[i];
            let context = TaskContext::new(
                task_id.clone(),
                Arc::clone(&current_state.pipeline_derivatives),
                Arc::clone(&thread_arg.repos),
            );
            match current_state.pipeline_derivatives.get_task(task_id) {
                Some(task) => {
                    let res = task.run(&context);
                    match res {
                        Ok(metrics) => {
                            runs.push(metrics);
                        },
                        Err(_) => {
                            // a task run never fails
                            proof {
                                assert(false);
                            }
                        },
                    }
                },
                None => {
                    // the scheduler took the id from the graph
                    proof {
                        assert(task_series@[i as int]@ == task_id@);
                        assert(false);
                    }
                },
            }
            i = i + 1;
        }
        runs
    }
}

/// Whether one of `runs` was that of a pump that found no input row.
pub fn pump_without_input_in(runs: &[MetricsUpdateByTaskExecution]) -> (r: bool)
    ensures
        r == exists|k: int|
            0 <= k < runs@.len() && is_pump_run_without_input(#[trigger] runs@[k]),
{
    let n = runs.len();
    let mut i: usize = 0;
    while i < n
        invariant
            n == runs@.len(),
            i <= n,
            forall|k: int| 0 <= k < i ==> !is_pump_run_without_input(#[trigger] runs@[k]),
        decreases n - i,
    {
        if is_pump_without_input(runs[i].task_metrics.task.kind, &runs[i]) {
            assert(is_pump_run_without_input(runs@[i as int]));
            return true;
        }
        i = i + 1;
    }
    false
}

/// The tags that a source worker subscribes to.
pub open spec fn spec_source_event_subscription() -> Seq<EventTag> {
    seq![EventTag::UpdatePipeline, EventTag::ReplacePerformanceMetrics, EventTag::TransitMemoryState]
}

/// The events that a source worker can handle: those of its tags, and no
/// transition to the critical memory state (which it cannot yet handle).
pub open spec fn source_worker_handles(e: Event) -> bool {
    &&& spec_source_event_subscription().contains(spec_tag_of(e))
    &&& e matches Event::TransitMemoryState { memory_state_transition } ==> memory_state_transition.to_state
        != MemoryState::Critical
}

/// The worker that runs the source tasks.
pub struct SourceWorkerThread;

impl SourceWorkerThread {
    /// The event tags that a source worker subscribes to.
    pub fn event_subscription() -> (r: Vec<EventTag>)
        ensures
            r@ == spec_source_event_subscription(),
    {
        let r = vec![
            EventTag::UpdatePipeline,
            EventTag::ReplacePerformanceMetrics,
            EventTag::TransitMemoryState,
        ];
        assert(r@ =~= spec_source_event_subscription());
        r
    }

    /// One cycle of the main loop, scheduling the source tasks.
    pub fn main_loop_cycle(
        current_state: TaskWorkerLoopState<SourceScheduler>,
        thread_arg: &TaskWorkerThreadArg,
    ) -> (r: (TaskWorkerLoopState<SourceScheduler>, CycleOutcome))
        requires
            current_state.wf(),
            thread_arg.wf(),
        ensures
            r.0 == current_state,
            ({
                let sources = current_state.pipeline_derivatives.task_graph.task_ids().filter(
                    |t: TaskIdView| t.kind == TaskKind::Source,
                );
                &&& r.1 is NoTask ==> sources.len() == 0
                &&& (r.1 is Executed || r.1 is ExecutedWithoutInput) ==> sources.len() > 0
                &&& !(r.1 is ExecutedWithoutInput)
            }),
    {
        TaskWorkerThreadHandler::main_loop_cycle::<SourceScheduler>(current_state, thread_arg)
    }

    /// A new pipeline: the worker runs its tasks from now on.
    pub fn ev_update_pipeline(
        current_state: TaskWorkerLoopState<SourceScheduler>,
        pipeline_derivatives: Arc<PipelineDerivatives>,
        thread_arg: &TaskWorkerThreadArg,
        _event_queue: Arc<BlockingEventQueue>,
    ) -> (r: TaskWorkerLoopState<SourceScheduler>)
        ensures
            r.pipeline_derivatives == pipeline_derivatives,
            r.metrics == current_state.metrics,
            r.scheduler == current_state.scheduler,
    {
        let mut state = current_state;
        state.pipeline_derivatives = pipeline_derivatives;
        state
    }

    /// New performance metrics replace the worker's.
    pub fn ev_replace_performance_metrics(
        current_state: TaskWorkerLoopState<SourceScheduler>,
        metrics: Arc<PerformanceMetrics>,
        thread_arg: &TaskWorkerThreadArg,
        _event_queue: Arc<BlockingEventQueue>,
    ) -> (r: TaskWorkerLoopState<SourceScheduler>)
        ensures
            r.metrics == metrics,
            r.pipeline_derivatives == current_state.pipeline_derivatives,
            r.scheduler == current_state.scheduler,
    {
        let mut state = current_state;
        state.metrics = metrics;
        state
    }

    /// A change of memory state: in the moderate and severe states source
    /// tasks keep running; the critical state is not handled yet.
    pub fn ev_transit_memory_state(
        current_state: TaskWorkerLoopState<SourceScheduler>,
        memory_state_transition: Arc<MemoryStateTransition>,
        _thread_arg: &TaskWorkerThreadArg,
        _event_queue: Arc<BlockingEventQueue>,
    ) -> (r: TaskWorkerLoopState<SourceScheduler>)
        requires
            memory_state_transition.to_state != MemoryState::Critical,
        ensures
            r == current_state,
    {
        match memory_state_transition.to_state() {
            MemoryState::Moderate => {},
            MemoryState::Severe => {},
            MemoryState::Critical => {},
        }
        current_state
    }

    /// Source workers do not subscribe to incremental metrics updates.
    pub fn ev_incremental_update_metrics(
        _current_state: TaskWorkerLoopState<SourceScheduler>,
        _metrics: Arc<MetricsUpdateByTaskExecution>,
        _thread_arg: &TaskWorkerThreadArg,
        _event_queue: Arc<BlockingEventQueue>,
    ) -> (r: TaskWorkerLoopState<SourceScheduler>)
        requires
            spec_source_event_subscription().contains(EventTag::IncrementalUpdateMetrics),
    {
        _current_state
    }

    /// Source workers do not subscribe to metrics summaries.
    pub fn ev_report_metrics_summary(
        _current_state: TaskWorkerLoopState<SourceScheduler>,
        _metrics_summary: Arc<PerformanceMetricsSummary>,
        _thread_arg: &TaskWorkerThreadArg,
        _event_queue: Arc<BlockingEventQueue>,
    ) -> (r: TaskWorkerLoopState<SourceScheduler>)
        requires
            spec_source_event_subscription().contains(EventTag::ReportMetricsSummary),
    {
        _current_state
    }

    /// The worker's state after an event it subscribed to.
    pub fn on_event(
        current_state: TaskWorkerLoopState<SourceScheduler>,
        event: Event,
        thread_arg: &TaskWorkerThreadArg,
        event_queue: Arc<BlockingEventQueue>,
    ) -> (r: TaskWorkerLoopState<SourceScheduler>)
        requires
            source_worker_handles(event),
        ensures
            match event {
                Event::UpdatePipeline { pipeline_derivatives } => r.pipeline_derivatives
                    == pipeline_derivatives && r.metrics == current_state.metrics,
                Event::ReplacePerformanceMetrics { metrics } => r.metrics == metrics
                    && r.pipeline_derivatives == current_state.pipeline_derivatives,
                _ => r == current_state,
            },
    {
        match event {
            Event::UpdatePipeline { pipeline_derivatives } => Self::ev_update_pipeline(
                current_state,
                pipeline_derivatives,
                thread_arg,
                event_queue,
            ),
            Event::ReplacePerformanceMetrics { metrics } => Self::ev_replace_performance_metrics(
                current_state,
                metrics,
                thread_arg,
                event_queue,
            ),
            Event::TransitMemoryState { memory_state_transition } => Self::ev_transit_memory_state(
                current_state,
                memory_state_transition,
                thread_arg,
                event_queue,
            ),
            Event::IncrementalUpdateMetrics { metrics_update_by_task_execution } =>
            Self::ev_incremental_update_metrics(
                current_state,
                metrics_update_by_task_execution,
                thread_arg,
                event_queue,
            ),
            Event::ReportMetricsSummary { metrics_summary } => Self::ev_report_metrics_summary(
                current_state,
                metrics_summary,
                thread_arg,
                event_queue,
            ),
        }
    }
}

/// A source worker, subscribed to its events; its thread runs the main
/// loop with the polls.
pub struct SourceWorker {
    subscriptions: Vec<(EventTag, EventPoll)>,
    thread_arg: TaskWorkerThreadArg,
}

impl SourceWorker {
    /// The tags subscribed to, in order.
    pub closed spec fn subscribed_tags(&self) -> Seq<EventTag> {
        self.subscriptions@.map_values(|s: (EventTag, EventPoll)| s.0)
    }

    /// Subscribes a new source worker to the events it handles.
    pub fn new(event_queue: &BlockingEventQueue, thread_arg: TaskWorkerThreadArg) -> (r: SourceWorker)
        requires
            event_queue.wf(),
        ensures
            r.subscribed_tags() == spec_source_event_subscription(),
    {
        let tags = SourceWorkerThread::event_subscription();
        let mut subscriptions: Vec<(EventTag, EventPoll)> = Vec::new();
        let n = tags.len();
        let mut i: usize = 0;
        while i < n
            invariant
                n == tags@.len(),
                event_queue.wf(),
                i <= n,
                subscriptions@.map_values(|s: (EventTag, EventPoll)| s.0) == tags@.subrange(0, i as int),
            decreases n - i,
        {
            let poll = event_queue.subscribe(tags[i]);
            subscriptions.push((tags[i], poll));
            assert(tags@.subrange(0, i + 1) =~= tags@.subrange(0, i as int).push(tags@[i as int]));
            i = i + 1;
            assert(subscriptions@.map_values(|s: (EventTag, EventPoll)| s.0) =~= tags@.subrange(
                0,
                i as int,
            ));
        }
        assert(tags@.subrange(0, n as int) =~= tags@);
        SourceWorker { subscriptions, thread_arg }
    }

    /// The subscriptions and the thread's argument, for the thread to run.
    pub fn into_parts(self) -> (r: (Vec<(EventTag, EventPoll)>, TaskWorkerThreadArg))
        ensures
            r.0@.map_values(|s: (EventTag, EventPoll)| s.0) == self.subscribed_tags(),
    {
        (self.subscriptions, self.thread_arg)
    }
}

} // verus!
