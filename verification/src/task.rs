//! Tasks (source, pump and sink) and what one run of a task does.
use std::sync::Arc;

use vstd::prelude::*;
use vstd::rwlock::{RwLock, RwLockPredicate, WriteHandle};

use crate::error::SpringError;
use crate::pipeline::{PipelineDerivatives, PipelineGraph, PumpModel, spec_downstream_tasks};
use crate::query::{FinalRow, QueryPlan, QuerySubtaskTree};
use crate::repositories::Repositories;
use crate::row::{Emitted, Row, spec_emit};
use crate::task_id::{TaskId, TaskIdView};
use crate::window_param::{AggregateParameter, JoinParameter, WindowOperationParameter};

verus! {

/// The outside type of a point in time.
#[verifier::external_type_specification]
#[verifier::external_body]
pub struct ExInstant(std::time::Instant);

/// `std::time::Instant::now`: the current time, of which nothing is
/// stated.
#[verifier::external_body]
fn instant_now() -> (r: std::time::Instant) {
    std::time::Instant::now()
}

/// `std::time::Instant::elapsed`: the time since `start`, of which nothing
/// is stated.
#[verifier::external_body]
fn instant_elapsed(start: &std::time::Instant) -> (r: std::time::Duration) {
    start.elapsed()
}

/// Measures the wall-clock time of a task execution.
pub struct WallClockStopwatch {
    start: std::time::Instant,
}

impl WallClockStopwatch {
    pub fn start() -> (r: WallClockStopwatch) {
        WallClockStopwatch { start: instant_now() }
    }

    pub fn stop(&self) -> (r: std::time::Duration) {
        instant_elapsed(&self.start)
    }
}

/// What a task run is given: the task, the pipeline and the shared
/// repositories.
pub struct TaskContext {
    pub task: TaskId,
    pub pipeline_derivatives: Arc<PipelineDerivatives>,
    pub repos: Arc<Repositories>,
}

impl TaskContext {
    pub open spec fn wf(&self) -> bool {
        self.repos.wf()
    }

    pub fn new(task: TaskId, pipeline_derivatives: Arc<PipelineDerivatives>, repos: Arc<Repositories>) -> (r:
        TaskContext)
        ensures
            r.task == task,
            r.pipeline_derivatives == pipeline_derivatives,
            r.repos == repos,
    {
        TaskContext { task, pipeline_derivatives, repos }
    }
}

/// How long one execution of a task took.
#[derive(Debug)]
pub struct TaskMetricsUpdateByTask {
    pub task: TaskId,
    pub execution_time: std::time::Duration,
}

/// Rows that a task took from its input queue.
#[derive(Debug, PartialEq, Eq)]
pub struct InQueueMetricsUpdateByTask {
    pub queue: TaskId,
    pub rows_used: u64,
}

/// Rows that a task added to a downstream queue.
#[derive(Debug, PartialEq, Eq)]
pub struct OutQueueMetricsUpdateByTask {
    pub queue: TaskId,
    pub rows_added: u64,
}

/// What one execution of a task changed in the performance metrics.
pub struct MetricsUpdateByTaskExecution {
    pub task_metrics: TaskMetricsUpdateByTask,
    pub in_queues_metrics: Vec<InQueueMetricsUpdateByTask>,
    pub out_queues_metrics: Vec<OutQueueMetricsUpdateByTask>,
    /// The receipt of the run that reported these metrics, if a run did.
    pub run: Option<RunReceipt>,
}

/// The receipt of a task's run: which task ran and what it reported. Only
/// the tasks' `run` make one.
pub struct RunReceipt {
    task: Ghost<TaskId>,
    task_metrics: Ghost<TaskMetricsUpdateByTask>,
    in_queues_metrics: Ghost<Seq<InQueueMetricsUpdateByTask>>,
    out_queues_metrics: Ghost<Seq<OutQueueMetricsUpdateByTask>>,
}

impl RunReceipt {
    /// The task that ran.
    pub closed spec fn task(&self) -> TaskId {
        self.task@
    }

    /// The run reported exactly `m`'s metrics.
    pub closed spec fn reports(&self, m: MetricsUpdateByTaskExecution) -> bool {
        &&& self.task_metrics@ == m.task_metrics
        &&& self.in_queues_metrics@ == m.in_queues_metrics@
        &&& self.out_queues_metrics@ == m.out_queues_metrics@
    }
}

/// `m` is what a run of task `t` reported.
pub open spec fn reported_by_run_of(m: MetricsUpdateByTaskExecution, t: TaskId) -> bool {
    m.run matches Some(receipt) && receipt.task() == t && receipt.reports(m)
}

/// `m` is what a run of the task identified by `id` reported.
pub open spec fn reported_by_run_of_id(m: MetricsUpdateByTaskExecution, id: TaskIdView) -> bool {
    m.run matches Some(receipt) && receipt.task()@ == id && receipt.reports(m)
}

/// The metrics that the run of `task` reported: `metrics`, with the
/// receipt of that run.
fn reported_by(metrics: MetricsUpdateByTaskExecution, task: &TaskId) -> (r: MetricsUpdateByTaskExecution)
    ensures
        r.task_metrics == metrics.task_metrics,
        r.in_queues_metrics == metrics.in_queues_metrics,
        r.out_queues_metrics == metrics.out_queues_metrics,
        reported_by_run_of(r, *task),
{
    let receipt = RunReceipt {
        task: Ghost(*task),
        task_metrics: Ghost(metrics.task_metrics),
        in_queues_metrics: Ghost(metrics.in_queues_metrics@),
        out_queues_metrics: Ghost(metrics.out_queues_metrics@),
    };
    MetricsUpdateByTaskExecution {
        task_metrics: metrics.task_metrics,
        in_queues_metrics: metrics.in_queues_metrics,
        out_queues_metrics: metrics.out_queues_metrics,
        run: Some(receipt),
    }
}

/// One row added to each of `tasks`' queues, in order.
pub open spec fn one_row_each(outs: Seq<OutQueueMetricsUpdateByTask>, tasks: Seq<TaskIdView>) -> bool {
    &&& outs.len() == tasks.len()
    &&& forall|i: int|
        0 <= i < outs.len() ==> (#[trigger] outs[i]).queue@ == tasks[i] && outs[i].rows_added == 1
}

/// The metrics of one run of `task`: its execution time, the input row it
/// used (if any) and the rows it added downstream.
pub fn metrics_of_run(
    task: &TaskId,
    execution_time: std::time::Duration,
    in_queue_metrics: Option<InQueueMetricsUpdateByTask>,
    out_queues_metrics: Vec<OutQueueMetricsUpdateByTask>,
) -> (r: MetricsUpdateByTaskExecution)
    ensures
        r.task_metrics == (TaskMetricsUpdateByTask { task: *task, execution_time }),
        r.in_queues_metrics@ == match in_queue_metrics {
            Some(m) => seq![m],
            None => Seq::<InQueueMetricsUpdateByTask>::empty(),
        },
        r.out_queues_metrics == out_queues_metrics,
        r.run is None,
{
    let mut in_queues_metrics = Vec::new();
    if let Some(m) = in_queue_metrics {
        in_queues_metrics.push(m);
    }
    proof {
        assert(in_queues_metrics@ =~= match in_queue_metrics {
            Some(m) => seq![m],
            None => Seq::<InQueueMetricsUpdateByTask>::empty(),
        });
    }
    MetricsUpdateByTaskExecution {
        task_metrics: TaskMetricsUpdateByTask { task: task.clone(), execution_time },
        in_queues_metrics,
        out_queues_metrics,
        run: None,
    }
}

/// The window of a group aggregation.
#[derive(Debug)]
pub struct AggrWindow {
    pub parameter: AggregateParameter,
}

/// The window of a join.
#[derive(Debug)]
pub struct JoinWindow {
    pub parameter: JoinParameter,
}

/// Any state of an aggregation window is acceptable.
pub struct AnyAggrWindow;

impl RwLockPredicate<AggrWindow> for AnyAggrWindow {
    open spec fn inv(self, v: AggrWindow) -> bool {
        true
    }
}

/// Any state of a join window is acceptable.
pub struct AnyJoinWindow;

impl RwLockPredicate<JoinWindow> for AnyJoinWindow {
    open spec fn inv(self, v: JoinWindow) -> bool {
        true
    }
}

/// The tree under the lock is the one compiled from `plan`: it is rooted at
/// a collect subtask.
pub struct CompiledTree {
    pub plan: QueryPlan,
}

impl RwLockPredicate<QuerySubtaskTree> for CompiledTree {
    open spec fn inv(self, v: QuerySubtaskTree) -> bool {
        v.wf()
    }
}

/// The output of a query subtask: the row and the input it used.
#[derive(Debug)]
pub struct QuerySubtaskOut {
    pub values_seq: Arc<Row>,
    pub in_queue_metrics_update: InQueueMetricsUpdateByTask,
}

/// The query part of a pump: its subtask tree and its window, if any.
pub struct QuerySubtask {
    plan: Ghost<QueryPlan>,
    tree: RwLock<QuerySubtaskTree, CompiledTree>,
    aggr_window: Option<RwLock<AggrWindow, AnyAggrWindow>>,
    join_window: Option<RwLock<JoinWindow, AnyJoinWindow>>,
}

impl QuerySubtask {
    /// The tree under the lock is compiled from this subtask's plan.
    pub closed spec fn wf(&self) -> bool {
        self.tree.pred() == (CompiledTree { plan: self.plan@ })
    }

    /// The query plan that the subtask executes.
    pub closed spec fn spec_query_plan(&self) -> QueryPlan {
        self.plan@
    }

    pub closed spec fn has_aggr_window(&self) -> bool {
        self.aggr_window is Some
    }

    pub closed spec fn has_join_window(&self) -> bool {
        self.join_window is Some
    }

    /// Compiles the plan; a group aggregation gets an aggregation window
    /// and a join a join window.
    pub fn new(query_plan: QueryPlan, window_param: Option<WindowOperationParameter>) -> (r:
        QuerySubtask)
        ensures
            r.wf(),
            r.spec_query_plan() == query_plan,
            r.has_aggr_window() == (window_param matches Some(
                WindowOperationParameter::GroupAggregation(_),
            )),
            r.has_join_window() == (window_param matches Some(WindowOperationParameter::Join(_))),
    {
        let ghost plan = query_plan;
        let tree = RwLock::new(QuerySubtaskTree::compile(query_plan), Ghost(CompiledTree { plan }));
        match window_param {
            Some(WindowOperationParameter::GroupAggregation(parameter)) => QuerySubtask {
                plan: Ghost(plan),
                tree,
                aggr_window: Some(RwLock::new(AggrWindow { parameter }, Ghost(AnyAggrWindow))),
                join_window: None,
            },
            Some(WindowOperationParameter::Join(parameter)) => QuerySubtask {
                plan: Ghost(plan),
                tree,
                aggr_window: None,
                join_window: Some(RwLock::new(JoinWindow { parameter }, Ghost(AnyJoinWindow))),
            },
            None => QuerySubtask { plan: Ghost(plan), tree, aggr_window: None, join_window: None },
        }
    }

    /// Runs the query on the next input row: `None` when no row is waiting.
    pub fn run(&self, context: &TaskContext) -> (r: Result<Option<QuerySubtaskOut>, SpringError>)
        requires
            self.wf(),
            context.wf(),
        ensures
            r matches Ok(Some(out)) ==> out.in_queue_metrics_update == (InQueueMetricsUpdateByTask {
                queue: context.task,
                rows_used: 1,
            }),
            r is Ok,
    {
        let (mut tree, handle) = self.tree.acquire_write();
        let res = tree.run(context);
        handle.release_write(tree);
        Ok(Self::output(res, &context.task))
    }

    /// The output of a query run: the row that came out of the subtask
    /// tree, with one row used from `task`'s input queue; none when the tree
    /// had no input.
    pub fn output(res: Result<FinalRow, SpringError>, task: &TaskId) -> (r: Option<QuerySubtaskOut>)
        ensures
            match res {
                Ok(FinalRow::Preserved(row)) => r matches Some(out) && out.values_seq == row,
                Ok(FinalRow::NewlyCreated(row)) => r matches Some(out) && *out.values_seq == row,
                Err(_) => r is None,
            },
            r matches Some(out) ==> out.in_queue_metrics_update == (InQueueMetricsUpdateByTask {
                queue: *task,
                rows_used: 1,
            }),
    {
        match res {
            Ok(final_row) => {
                let values_seq = match final_row {
                    FinalRow::Preserved(row) => row,
                    FinalRow::NewlyCreated(row) => Arc::new(row),
                };
                Some(
                    QuerySubtaskOut {
                        values_seq,
                        in_queue_metrics_update: InQueueMetricsUpdateByTask {
                            queue: task.clone(),
                            rows_used: 1,
                        },
                    },
                )
            },
            Err(_) => None,
        }
    }

    /// Locks the aggregation window, if the pump has one; the caller
    /// releases it.
    pub fn get_aggr_window_mut(&self) -> (r: Option<
        (AggrWindow, WriteHandle<'_, AggrWindow, AnyAggrWindow>),
    >)
        ensures
            r is Some == self.has_aggr_window(),
    {
        match &self.aggr_window {
            Some(w) => Some(w.acquire_write()),
            None => None,
        }
    }

    /// Locks the join window, if the pump has one; the caller releases it.
    pub fn get_join_window_mut(&self) -> (r: Option<
        (JoinWindow, WriteHandle<'_, JoinWindow, AnyJoinWindow>),
    >)
        ensures
            r is Some == self.has_join_window(),
    {
        match &self.join_window {
            Some(w) => Some(w.acquire_write()),
            None => None,
        }
    }
}

/// What an insert subtask did.
pub struct InsertSubtaskOut {
    pub out_queues_metrics_update: Vec<OutQueueMetricsUpdateByTask>,
    /// The receipt of the row's emission downstream.
    pub emitted: Emitted,
}

/// Inserts a pump's output rows into the queues of the tasks downstream of
/// its target stream.
#[derive(Debug)]
pub struct InsertSubtask {
    downstream_tasks: Vec<TaskId>,
}

/// The views of a list of task identifiers.
pub open spec fn task_ids_view(s: Seq<TaskId>) -> Seq<TaskIdView> {
    s.map_values(|t: TaskId| t@)
}

/// One "one row added" metric for each of `tasks`.
fn one_row_metrics(tasks: &[TaskId]) -> (r: Vec<OutQueueMetricsUpdateByTask>)
    ensures
        one_row_each(r@, task_ids_view(tasks@)),
{
    let mut r: Vec<OutQueueMetricsUpdateByTask> = Vec::new();
    let n = tasks.len();
    let mut i: usize = 0;
    while i < n
        invariant
            n == tasks@.len(),
            i <= n,
            one_row_each(r@, task_ids_view(tasks@.subrange(0, i as int))),
        decreases n - i,
    {
        r.push(OutQueueMetricsUpdateByTask { queue: tasks[i].clone(), rows_added: 1 });
        i = i + 1;
        assert(task_ids_view(tasks@.subrange(0, i as int)) =~= task_ids_view(
            tasks@.subrange(0, i - 1),
        ).push(tasks@[i - 1]@));
    }
    assert(tasks@.subrange(0, n as int) =~= tasks@);
    r
}

impl InsertSubtask {
    pub closed spec fn downstream(&self) -> Seq<TaskIdView> {
        task_ids_view(self.downstream_tasks@)
    }

    /// The insert subtask of a pump into `stream`.
    pub fn new(stream: &String, pipeline_graph: &PipelineGraph) -> (r: InsertSubtask)
        requires
            pipeline_graph.wf(),
        ensures
            r.downstream() == spec_downstream_tasks(*pipeline_graph, stream@),
    {
        InsertSubtask { downstream_tasks: pipeline_graph.downstream_tasks_of_stream(stream) }
    }

    /// Adds `row` to the queue of each downstream task.
    pub fn run(&self, row: Arc<Row>, context: &TaskContext) -> (r: InsertSubtaskOut)
        requires
            context.wf(),
        ensures
            one_row_each(r.out_queues_metrics_update@, self.downstream()),
            r.emitted.row() == row,
            r.emitted.tasks() == self.downstream(),
            r.emitted.after() == spec_emit(r.emitted.before(), row, self.downstream()),
    {
        let emitted = context.repos.row_repository.emit(&row, self.downstream_tasks.as_slice());
        InsertSubtaskOut {
            out_queues_metrics_update: one_row_metrics(self.downstream_tasks.as_slice()),
            emitted,
        }
    }
}

/// A pump: a query on the rows of one stream whose results are inserted
/// into another.
pub struct PumpTask {
    id: TaskId,
    query_subtask: QuerySubtask,
    insert_subtask: InsertSubtask,
}

impl PumpTask {
    pub closed spec fn spec_id(&self) -> TaskId {
        self.id
    }

    pub closed spec fn downstream(&self) -> Seq<TaskIdView> {
        self.insert_subtask.downstream()
    }

    pub closed spec fn wf(&self) -> bool {
        self.query_subtask.wf()
    }

    pub closed spec fn has_aggr_window(&self) -> bool {
        self.query_subtask.has_aggr_window()
    }

    /// The query plan that the pump executes.
    pub closed spec fn spec_query_plan(&self) -> QueryPlan {
        self.query_subtask.spec_query_plan()
    }

    pub closed spec fn has_join_window(&self) -> bool {
        self.query_subtask.has_join_window()
    }

    /// The task of `pump`: its rows go to the tasks downstream of the
    /// stream it inserts into.
    pub fn new(pump: &PumpModel, pipeline_graph: &PipelineGraph) -> (r: PumpTask)
        requires
            pipeline_graph.wf(),
        ensures
            r.wf(),
            r.spec_id()@ == (TaskIdView { kind: crate::task_id::TaskKind::Pump, name: pump.name@ }),
            r.downstream() == spec_downstream_tasks(*pipeline_graph, pump.insert_plan.stream@),
            r.spec_query_plan() == pump.query_plan,
            r.has_aggr_window() == (pump.window_param matches Some(
                WindowOperationParameter::GroupAggregation(_),
            )),
            r.has_join_window() == (pump.window_param matches Some(
                WindowOperationParameter::Join(_),
            )),
    {
        let id = TaskId::from_pump(&pump.name);
        let query_subtask = QuerySubtask::new(pump.query_plan.clone(), pump.clone_window_param());
        let insert_subtask = InsertSubtask::new(&pump.insert_plan.stream, pipeline_graph);
        PumpTask { id, query_subtask, insert_subtask }
    }

    pub fn id(&self) -> (r: &TaskId)
        ensures
            *r == self.spec_id(),
    {
        &self.id
    }

    /// Runs the pump once and reports what it changed: the input row it
    /// used (none when no row was waiting) and one row for each downstream
    /// queue.
    pub fn run(&self, context: &TaskContext) -> (r: Result<MetricsUpdateByTaskExecution, SpringError>)
        requires
            self.wf(),
            context.wf(),
        ensures
            r matches Ok(m) ==> reported_by_run_of(m, self.spec_id()),
            r matches Ok(m) && {
                &&& m.task_metrics.task == context.task
                &&& m.in_queues_metrics@.len() <= 1
                &&& m.in_queues_metrics@.len() == 1 ==> m.in_queues_metrics@[0] == (
                InQueueMetricsUpdateByTask { queue: context.task, rows_used: 1 })
                &&& m.in_queues_metrics@.len() == 1 ==> one_row_each(
                    m.out_queues_metrics@,
                    self.downstream(),
                )
                &&& m.in_queues_metrics@.len() == 0 ==> m.out_queues_metrics@.len() == 0
            },
    {
        let stopwatch = WallClockStopwatch::start();
        let (in_queue_metrics, out_queues_metrics) = self.run_query_insert(context)?;
        let execution_time = stopwatch.stop();
        Ok(reported_by(metrics_of_run(&context.task, execution_time, in_queue_metrics, out_queues_metrics), &self.id))
    }

    /// Takes the next input row, runs the query and inserts its result
    /// downstream; nothing when no row is waiting.
    pub fn run_query_insert(&self, context: &TaskContext) -> (r: Result<
        (Option<InQueueMetricsUpdateByTask>, Vec<OutQueueMetricsUpdateByTask>),
        SpringError,
    >)
        requires
            self.wf(),
            context.wf(),
        ensures
            r matches Ok((in_m, outs)) && match in_m {
                Some(m) => m == (InQueueMetricsUpdateByTask { queue: context.task, rows_used: 1 })
                    && one_row_each(outs@, self.downstream()),
                None => outs@.len() == 0,
            },
    {
        let query_out = self.query_subtask.run(context)?;
        Ok(self.insert_query_output(query_out, context))
    }

    /// Inserts what the query gave downstream: with no output (no input row
    /// was waiting) nothing is inserted and nothing is reported; otherwise
    /// the output row goes to each downstream task, and the input row used
    /// and one row per downstream queue are reported.
    pub fn insert_query_output(&self, query_out: Option<QuerySubtaskOut>, context: &TaskContext) -> (r: (
        Option<InQueueMetricsUpdateByTask>,
        Vec<OutQueueMetricsUpdateByTask>,
    ))
        requires
            context.wf(),
        ensures
            match query_out {
                None => r.0 is None && r.1@.len() == 0,
                Some(o) => r.0 == Some(o.in_queue_metrics_update) && one_row_each(
                    r.1@,
                    self.downstream(),
                ),
            },
    {
        match query_out {
            Some(query_subtask_out) => {
                let insert_subtask_out = self.insert_subtask.run(query_subtask_out.values_seq, context);
                (
                    Some(query_subtask_out.in_queue_metrics_update),
                    insert_subtask_out.out_queues_metrics_update,
                )
            },
            None => (None, Vec::new()),
        }
    }

    /// Locks the pump's aggregation window, if it has one.
    pub fn get_aggr_window_mut(&self) -> (r: Option<
        (AggrWindow, WriteHandle<'_, AggrWindow, AnyAggrWindow>),
    >)
        ensures
            r is Some == self.has_aggr_window(),
    {
        self.query_subtask.get_aggr_window_mut()
    }

    /// Locks the pump's join window, if it has one.
    pub fn get_join_window_mut(&self) -> (r: Option<
        (JoinWindow, WriteHandle<'_, JoinWindow, AnyJoinWindow>),
    >)
        ensures
            r is Some == self.has_join_window(),
    {
        self.query_subtask.get_join_window_mut()
    }
}

/// A source task: moves the rows that its reader received into the queues
/// of the tasks downstream of its stream.
pub struct SourceTask {
    id: TaskId,
    downstream_tasks: Vec<TaskId>,
}

impl SourceTask {
    pub closed spec fn spec_id(&self) -> TaskId {
        self.id
    }

    pub closed spec fn downstream(&self) -> Seq<TaskIdView> {
        task_ids_view(self.downstream_tasks@)
    }

    pub fn new(id: TaskId, downstream_tasks: Vec<TaskId>) -> (r: SourceTask)
        ensures
            r.spec_id() == id,
            r.downstream() == task_ids_view(downstream_tasks@),
    {
        SourceTask { id, downstream_tasks }
    }

    pub fn id(&self) -> (r: &TaskId)
        ensures
            *r == self.spec_id(),
    {
        &self.id
    }

    /// Moves one received row downstream, if one is waiting.
    pub fn run(&self, context: &TaskContext) -> (r: Result<MetricsUpdateByTaskExecution, SpringError>)
        requires
            context.wf(),
        ensures
            r matches Ok(m) ==> reported_by_run_of(m, self.spec_id()),
            r matches Ok(m) && m.task_metrics.task == context.task && m.in_queues_metrics@.len()
                == 0 && (m.out_queues_metrics@.len() == 0 || one_row_each(
                m.out_queues_metrics@,
                self.downstream(),
            )),
    {
        let stopwatch = WallClockStopwatch::start();
        let received = context.repos.source_reader_repository.next_row(&self.id);
        let out_queues_metrics = self.move_received_row(received, context);
        let execution_time = stopwatch.stop();
        Ok(reported_by(metrics_of_run(&context.task, execution_time, None, out_queues_metrics), &self.id))
    }

    /// Moves a received row into the queue of each downstream task: with no
    /// row nothing moves and nothing is reported, otherwise one row per
    /// downstream queue is reported.
    pub fn move_received_row(&self, received: Option<Arc<Row>>, context: &TaskContext) -> (r: Vec<
        OutQueueMetricsUpdateByTask,
    >)
        requires
            context.wf(),
        ensures
            received is None ==> r@.len() == 0,
            received is Some ==> one_row_each(r@, self.downstream()),
    {
        match received {
            Some(row) => {
                context.repos.row_repository.emit(&row, self.downstream_tasks.as_slice());
                one_row_metrics(self.downstream_tasks.as_slice())
            },
            None => Vec::new(),
        }
    }
}

/// A sink task: hands the rows of its input queue to its writer.
pub struct SinkTask {
    id: TaskId,
}

impl SinkTask {
    pub closed spec fn spec_id(&self) -> TaskId {
        self.id
    }

    pub fn new(id: TaskId) -> (r: SinkTask)
        ensures
            r.spec_id() == id,
    {
        SinkTask { id }
    }

    pub fn id(&self) -> (r: &TaskId)
        ensures
            *r == self.spec_id(),
    {
        &self.id
    }

    /// Hands one row of the input queue to the writer, if one is waiting.
    pub fn run(&self, context: &TaskContext) -> (r: Result<MetricsUpdateByTaskExecution, SpringError>)
        requires
            context.wf(),
        ensures
            r matches Ok(m) ==> reported_by_run_of(m, self.spec_id()),
            r matches Ok(m) && m.task_metrics.task == context.task && m.out_queues_metrics@.len()
                == 0 && m.in_queues_metrics@.len() <= 1 && (m.in_queues_metrics@.len() == 1
                ==> m.in_queues_metrics@[0] == (InQueueMetricsUpdateByTask {
                queue: context.task,
                rows_used: 1,
            })),
    {
        let stopwatch = WallClockStopwatch::start();
        let collected = context.repos.row_repository.collect_next(&context.task);
        let in_queue_metrics = self.deliver_collected_row(collected, context);
        let execution_time = stopwatch.stop();
        Ok(reported_by(metrics_of_run(&context.task, execution_time, in_queue_metrics, Vec::new()), &self.id))
    }

    /// Hands a row collected from the input queue to the writer: with no
    /// row nothing is reported, otherwise the one input row used.
    pub fn deliver_collected_row(&self, collected: Option<Arc<Row>>, context: &TaskContext) -> (r:
        Option<InQueueMetricsUpdateByTask>)
        requires
            context.wf(),
        ensures
            collected is None ==> r is None,
            collected is Some ==> r == Some(
                InQueueMetricsUpdateByTask { queue: context.task, rows_used: 1 },
            ),
    {
        match collected {
            Some(row) => {
                context.repos.sink_writer_repository.deliver(&self.id, row);
                Some(InQueueMetricsUpdateByTask { queue: context.task.clone(), rows_used: 1 })
            },
            None => None,
        }
    }
}

/// A task of the task graph.
pub enum Task {
    Pump(PumpTask),
    Source(SourceTask),
    Sink(SinkTask),
}

impl Task {
    pub open spec fn spec_id(&self) -> TaskId {
        match self {
            Task::Pump(t) => t.spec_id(),
            Task::Source(t) => t.spec_id(),
            Task::Sink(t) => t.spec_id(),
        }
    }

    pub open spec fn wf(&self) -> bool {
        match self {
            Task::Pump(t) => t.wf(),
            _ => true,
        }
    }

    pub fn id(&self) -> (r: &TaskId)
        ensures
            *r == self.spec_id(),
    {
        match self {
            Task::Pump(t) => t.id(),
            Task::Source(t) => t.id(),
            Task::Sink(t) => t.id(),
        }
    }

    /// Runs the task once.
    pub fn run(&self, context: &TaskContext) -> (r: Result<MetricsUpdateByTaskExecution, SpringError>)
        requires
            self.wf(),
            context.wf(),
        ensures
            r matches Ok(m) ==> reported_by_run_of(m, self.spec_id()),
            r matches Ok(m) && m.task_metrics.task == context.task,
    {
        match self {
            Task::Pump(t) => t.run(context),
            Task::Source(t) => t.run(context),
            Task::Sink(t) => t.run(context),
        }
    }
}

} // verus!
