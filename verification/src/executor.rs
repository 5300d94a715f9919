//! The task executor: the lock between pipeline updates and task
//! executions, and what a pipeline update does to the shared repositories.
use std::sync::Arc;

use vstd::prelude::*;

use crate::error::SpringError;
use crate::event::{BlockingEventQueue, Event, EventTag};
use crate::option::{NetServerOptionsView, OptionErrorView, option_error_of};
use crate::pipeline::{
    CurrentPipeline,
    PipelineDerivatives,
    SinkWriterModel,
    SourceReaderModel,
    SourceReaderType,
    TaskGraph,
    sink_models,
    source_models,
};
use crate::repositories::{
    Repositories,
    SpringSinkWriterConfig,
    SpringSourceReaderConfig,
    spec_sink_setup,
    spec_source_setup,
};
use crate::task::{TaskContext, task_ids_view};
use crate::task_id::{TaskId, TaskIdView, TaskKind};

verus! {

/// The outside reader-writer lock of std.
#[verifier::external_type_specification]
#[verifier::external_body]
#[verifier::reject_recursive_types(T)]
pub struct ExStdRwLock<T: ?Sized>(std::sync::RwLock<T>);

/// The outside shared guard of std's reader-writer lock.
#[verifier::external_type_specification]
#[verifier::external_body]
#[verifier::reject_recursive_types(T)]
pub struct ExStdRwLockReadGuard<'a, T: ?Sized>(std::sync::RwLockReadGuard<'a, T>);

/// The outside exclusive guard of std's reader-writer lock.
#[verifier::external_type_specification]
#[verifier::external_body]
#[verifier::reject_recursive_types(T)]
pub struct ExStdRwLockWriteGuard<'a, T: ?Sized + 'a>(std::sync::RwLockWriteGuard<'a, T>);

/// `std::sync::RwLock::new(())`: an unlocked lock.
#[verifier::external_body]
fn new_unit_lock() -> (r: std::sync::RwLock<()>) {
    std::sync::RwLock::new(())
}

/// `std::sync::RwLock::try_write`: exclusive access if it can be had at
/// once (a lock that another thread poisoned is taken as it is); whether it
/// can depends on the other threads. It never blocks, so a thread that
/// holds the lock itself is answered `None` rather than left waiting.
#[verifier::external_body]
fn try_lock_exclusive(lock: &std::sync::RwLock<()>) -> (r: Option<std::sync::RwLockWriteGuard<'_, ()>>) {
    match lock.try_write() {
        Ok(guard) => Some(guard),
        Err(std::sync::TryLockError::Poisoned(e)) => Some(e.into_inner()),
        Err(std::sync::TryLockError::WouldBlock) => None,
    }
}

/// `std::sync::RwLock::try_read`: shared access if it can be had at once;
/// whether it can depends on the other threads.
#[verifier::external_body]
fn try_lock_shared(lock: &std::sync::RwLock<()>) -> (r: Option<std::sync::RwLockReadGuard<'_, ()>>) {
    lock.try_read().ok()
}

/// Held while the pipeline is updated: no task runs meanwhile.
pub struct PipelineUpdateLockGuard<'a> {
    guard: std::sync::RwLockWriteGuard<'a, ()>,
}

/// Held while tasks run: the pipeline is not updated meanwhile.
pub struct TaskExecutionLockGuard<'a> {
    guard: std::sync::RwLockReadGuard<'a, ()>,
}

/// Keeps pipeline updates and task executions apart.
pub struct TaskExecutorLock {
    lock: std::sync::RwLock<()>,
}

impl TaskExecutorLock {
    pub fn new() -> (r: TaskExecutorLock) {
        TaskExecutorLock { lock: new_unit_lock() }
    }

    /// Keeps tasks from running until the guard is dropped, if no task
    /// runs now; `None` while tasks run (the caller waits and asks again).
    pub fn pipeline_update(&self) -> (r: Option<PipelineUpdateLockGuard<'_>>) {
        match try_lock_exclusive(&self.lock) {
            Some(guard) => Some(PipelineUpdateLockGuard { guard }),
            None => None,
        }
    }

    /// Lets tasks run, unless a pipeline update is going on.
    pub fn try_task_execution(&self) -> (r: Option<TaskExecutionLockGuard<'_>>) {
        match try_lock_shared(&self.lock) {
            Some(guard) => Some(TaskExecutionLockGuard { guard }),
            None => None,
        }
    }
}

/// Every source reader and sink writer of a pipeline has valid options.
pub open spec fn all_options_valid(sources: Seq<SourceReaderModel>, sinks: Seq<SinkWriterModel>) -> bool {
    &&& forall|i: int|
        0 <= i < sources.len() ==> spec_source_setup(
            (#[trigger] sources[i]).source_reader_type,
            sources[i].options,
        ) is Ok
    &&& forall|i: int|
        0 <= i < sinks.len() ==> spec_sink_setup((#[trigger] sinks[i]).sink_writer_type, sinks[i].options)
            is Ok
}

/// `e` is the option error of one of the source readers or sink writers.
pub open spec fn option_error_of_some(
    sources: Seq<SourceReaderModel>,
    sinks: Seq<SinkWriterModel>,
    e: OptionErrorView,
) -> bool {
    ||| exists|i: int|
        0 <= i < sources.len() && spec_source_setup(
            (#[trigger] sources[i]).source_reader_type,
            sources[i].options,
        ) == Err::<(SourceReaderType, NetServerOptionsView), OptionErrorView>(e)
    ||| exists|i: int|
        0 <= i < sinks.len() && spec_sink_setup((#[trigger] sinks[i]).sink_writer_type, sinks[i].options)
            == Err::<(), OptionErrorView>(e)
}

/// The event that announces `current_pipeline` to the workers.
pub fn update_pipeline_event(current_pipeline: &CurrentPipeline) -> (e: Event)
    ensures
        e == (Event::UpdatePipeline { pipeline_derivatives: current_pipeline.spec_derivatives() }),
{
    Event::UpdatePipeline { pipeline_derivatives: current_pipeline.derivatives() }
}

/// Executes the task graph's dataflow by worker threads: source tasks and
/// the other tasks are scheduled by different workers, which subscribe to
/// the executor's event queue.
pub struct TaskExecutor {
    task_executor_lock: Arc<TaskExecutorLock>,
    repos: Arc<Repositories>,
    event_queue: Arc<BlockingEventQueue>,
    n_worker_threads: usize,
    current_pipeline: Arc<CurrentPipeline>,
}

impl TaskExecutor {
    pub closed spec fn wf(&self) -> bool {
        &&& self.repos.wf()
        &&& self.event_queue.wf()
    }

    pub closed spec fn spec_n_worker_threads(&self) -> usize {
        self.n_worker_threads
    }

    pub closed spec fn spec_initial_pipeline(&self) -> Arc<CurrentPipeline> {
        self.current_pipeline
    }

    pub closed spec fn spec_task_executor_lock(&self) -> Arc<TaskExecutorLock> {
        self.task_executor_lock
    }

    pub closed spec fn spec_repos(&self) -> Arc<Repositories> {
        self.repos
    }

    pub closed spec fn spec_event_queue(&self) -> Arc<BlockingEventQueue> {
        self.event_queue
    }

    /// An executor for `n_worker_threads` workers, with empty repositories
    /// and an event queue without subscribers; the workers are started on
    /// the pipeline `current_pipeline`.
    pub fn new(n_worker_threads: usize, current_pipeline: Arc<CurrentPipeline>) -> (r: TaskExecutor)
        ensures
            r.wf(),
            r.spec_n_worker_threads() == n_worker_threads,
            r.spec_initial_pipeline() == current_pipeline,
    {
        let task_executor_lock = Arc::new(TaskExecutorLock::new());
        let repos = Arc::new(
            Repositories::new(
                SpringSourceReaderConfig { net_connect_timeout_msec: 1_000, net_read_timeout_msec: 100 },
                SpringSinkWriterConfig { net_connect_timeout_msec: 1_000, net_write_timeout_msec: 100 },
            ),
        );
        let event_queue = Arc::new(BlockingEventQueue::new());
        TaskExecutor { task_executor_lock, repos, event_queue, n_worker_threads, current_pipeline }
    }

    /// The number of worker threads to start.
    pub fn n_worker_threads(&self) -> (r: usize)
        ensures
            r == self.spec_n_worker_threads(),
    {
        self.n_worker_threads
    }

    /// The pipeline that the workers start on.
    pub fn initial_pipeline(&self) -> (r: Arc<CurrentPipeline>)
        ensures
            r == self.spec_initial_pipeline(),
    {
        Arc::clone(&self.current_pipeline)
    }

    /// The lock shared with the workers.
    pub fn task_executor_lock(&self) -> (r: Arc<TaskExecutorLock>)
        ensures
            r == self.spec_task_executor_lock(),
    {
        Arc::clone(&self.task_executor_lock)
    }

    /// The repositories shared with the workers.
    pub fn repos(&self) -> (r: Arc<Repositories>)
        requires
            self.wf(),
        ensures
            r.wf(),
            r == self.spec_repos(),
    {
        Arc::clone(&self.repos)
    }

    /// The event queue shared with the workers.
    pub fn event_queue(&self) -> (r: Arc<BlockingEventQueue>)
        requires
            self.wf(),
        ensures
            r.wf(),
            r == self.spec_event_queue(),
    {
        Arc::clone(&self.event_queue)
    }

    /// The lock to hold while the pipeline is updated, if no task runs
    /// now; `None` while tasks run (the caller waits and asks again).
    pub fn pipeline_update_lock(&self) -> (r: Option<PipelineUpdateLockGuard<'_>>) {
        self.task_executor_lock.pipeline_update()
    }

    /// Updates the workers' pipeline: registers every source reader, then
    /// every sink writer (stopping at the first whose options are invalid),
    /// then announces the new pipeline to the workers.
    ///
    /// Fails with an option error of one of the pipeline's readers or
    /// writers, which happens only when one of them has invalid options, or
    /// when a worker is gone.
    pub fn update_pipeline(
        &self,
        _lock_guard: &PipelineUpdateLockGuard,
        current_pipeline: Arc<CurrentPipeline>,
    ) -> (r: Result<(), SpringError>)
        requires
            self.wf(),
        ensures
            ({
                let sources = source_models(current_pipeline.spec_pipeline().graph.spec_edges());
                let sinks = sink_models(current_pipeline.spec_pipeline().graph.spec_edges());
                match r {
                    Ok(()) => true,
                    Err(e) => {
                        ||| e is InvalidOption && option_error_of_some(sources, sinks, option_error_of(e))
                        ||| e == (SpringError::EventNotDelivered { tag: EventTag::UpdatePipeline })
                    },
                }
            }),
            r matches Err(e) && e is InvalidOption ==> !all_options_valid(
                source_models(current_pipeline.spec_pipeline().graph.spec_edges()),
                sink_models(current_pipeline.spec_pipeline().graph.spec_edges()),
            ),
    {
        let pipeline = current_pipeline.pipeline();
        let ghost sources = source_models(pipeline.graph.spec_edges());
        let ghost sinks = sink_models(pipeline.graph.spec_edges());
        let all_sources = pipeline.graph.all_sources();
        let n = all_sources.len();
        let mut i: usize = 0;
        while i < n
            invariant
                self.wf(),
                n == all_sources@.len(),
                all_sources@.map_values(|m: &SourceReaderModel| *m) == sources,
                sources == source_models(current_pipeline.spec_pipeline().graph.spec_edges()),
                sinks == sink_models(current_pipeline.spec_pipeline().graph.spec_edges()),
                i <= n,
            decreases n - i,
        {
            let res = self.repos.source_reader_repository.register(all_sources[i]);
            if let Err(e) = res {
                proof {
                    assert(sources[i as int] == *all_sources@[i as int]);
                    assert(spec_source_setup(
                        sources[i as int].source_reader_type,
                        sources[i as int].options,
                    ) == Err::<(SourceReaderType, NetServerOptionsView), OptionErrorView>(
                        option_error_of(e),
                    ));
                    assert(option_error_of_some(sources, sinks, option_error_of(e)));
                }
                return Err(e);
            }
            i = i + 1;
        }
        let all_sinks = pipeline.graph.all_sinks();
        let m = all_sinks.len();
        let mut j: usize = 0;
        while j < m
            invariant
                self.wf(),
                m == all_sinks@.len(),
                all_sinks@.map_values(|s: &SinkWriterModel| *s) == sinks,
                sources == source_models(current_pipeline.spec_pipeline().graph.spec_edges()),
                sinks == sink_models(current_pipeline.spec_pipeline().graph.spec_edges()),
                j <= m,
            decreases m - j,
        {
            let res = self.repos.sink_writer_repository.register(all_sinks[j]);
            if let Err(e) = res {
                proof {
                    assert(sinks[j as int] == *all_sinks@[j as int]);
                    assert(spec_sink_setup(sinks[j as int].sink_writer_type, sinks[j as int].options)
                        == Err::<(), OptionErrorView>(option_error_of(e)));
                    assert(option_error_of_some(sources, sinks, option_error_of(e)));
                }
                return Err(e);
            }
            j = j + 1;
        }
        self.event_queue.publish_blocking(update_pipeline_event(&current_pipeline))
    }

    /// Runs each task of `series` once, in order; tells whether one of the
    /// runs used an input row.
    fn drain_round(
        &self,
        task_graph: &TaskGraph,
        series: &[TaskId],
        derivatives: &Arc<PipelineDerivatives>,
    ) -> (used_input: bool)
        requires
            self.wf(),
            task_graph.wf(),
    {
        let mut used_input = false;
        let n = series.len();
        let mut i: usize = 0;
        while i < n
            invariant
                n == series@.len(),
                i <= n,
                self.wf(),
                task_graph.wf(),
            decreases n - i,
        {
            match task_graph.get_task(&series[i]) {
                Some(task) => {
                    let context = TaskContext::new(
                        series[i].clone(),
                        Arc::clone(derivatives),
                        Arc::clone(&self.repos),
                    );
                    if let Ok(metrics) = task.run(&context) {
                        if metrics.in_queues_metrics.len() > 0 {
                            used_input = true;
                        }
                    }
                },
                None => {},
            }
            i = i + 1;
        }
        used_input
    }

    /// Stops the dataflow: source tasks no longer run, and the pump tasks
    /// and then the sink tasks of `task_graph` run in rounds, so that the
    /// rows remaining in their queues go on to the sinks, until a round
    /// finds no row (at most `u64::MAX` rounds); then each task of
    /// `task_graph` is left with an empty queue.
    pub fn cleanup(&self, _lock_guard: &PipelineUpdateLockGuard, task_graph: &TaskGraph)
        requires
            self.wf(),
            task_graph.wf(),
    {
        let mut series = task_graph.tasks_of_kind(TaskKind::Pump);
        let mut sinks = task_graph.tasks_of_kind(TaskKind::Sink);
        series.append(&mut sinks);
        let derivatives = self.current_pipeline.derivatives();
        let mut rounds: u64 = 0;
        let mut progressed = true;
        while progressed && rounds < u64::MAX
            invariant
                self.wf(),
                task_graph.wf(),
            decreases u64::MAX - rounds,
        {
            progressed = self.drain_round(task_graph, series.as_slice(), &derivatives);
            rounds = rounds + 1;
        }
        let tasks = task_graph.all_tasks();
        self.repos.row_repository.reset(tasks.as_slice());
    }
}

} // verus!
