//! Query plans and the subtasks that execute them.
use std::sync::Arc;

use vstd::prelude::*;

use crate::error::SpringError;
use crate::row::Row;
use crate::task::TaskContext;
use crate::task_id::TaskId;

verus! {

/// The outside type of a chrono time span.
#[verifier::external_type_specification]
#[verifier::external_body]
pub struct ExTimeDelta(chrono::TimeDelta);

/// The outside type of chrono's range error.
#[verifier::external_type_specification]
#[verifier::external_body]
pub struct ExOutOfRangeError(chrono::OutOfRangeError);

/// The chrono time span of `secs` seconds and `nanos` nanoseconds.
pub uninterp spec fn time_delta_from_std(secs: u64, nanos: u32) -> chrono::TimeDelta;

/// The largest whole number of seconds of a chrono time span:
/// `i64::MAX` milliseconds.
pub open spec fn max_time_delta_secs() -> u64 {
    9_223_372_036_854_775
}

/// Whether `secs` seconds and `nanos` nanoseconds fit in a chrono time span
/// (at most `i64::MAX` milliseconds).
pub open spec fn fits_time_delta(secs: u64, nanos: u32) -> bool {
    secs < max_time_delta_secs() || (secs == max_time_delta_secs() && nanos <= 807_000_000)
}

/// `chrono::TimeDelta::from_std` on the `std::time::Duration` of `secs`
/// seconds and `nanos` nanoseconds: it succeeds exactly when the span fits
/// (at most `i64::MAX` milliseconds), and then gives the span of those
/// seconds and nanoseconds.
#[verifier::external_body]
fn time_delta_of(secs: u64, nanos: u32) -> (r: Result<chrono::TimeDelta, chrono::OutOfRangeError>)
    requires
        nanos < 1_000_000_000,
    ensures
        r is Ok <==> fits_time_delta(secs, nanos),
        r matches Ok(d) ==> d == time_delta_from_std(secs, nanos),
{
    chrono::TimeDelta::from_std(std::time::Duration::new(secs, nanos))
}

/// The operation of a leaf of a query plan.
#[derive(Debug, Clone, Copy, PartialEq, Eq, Structural)]
pub enum LeafOperation {
    /// Collects the next row of the pump's input queue.
    Collect,
}

/// A leaf of a query plan.
#[derive(Debug, PartialEq, Eq)]
pub struct QueryPlanNodeLeaf {
    pub op: LeafOperation,
}

/// A node of a query plan.
#[derive(Debug, PartialEq, Eq)]
pub enum QueryPlanNode {
    Leaf(QueryPlanNodeLeaf),
}

/// A query plan: a tree of operations.
#[derive(Debug, PartialEq, Eq)]
pub struct QueryPlan {
    root: Arc<QueryPlanNode>,
}

impl Clone for QueryPlan {
    fn clone(&self) -> (r: Self)
        ensures
            r == *self,
    {
        QueryPlan { root: Arc::clone(&self.root) }
    }
}

impl QueryPlan {
    pub fn new(root: QueryPlanNode) -> (r: QueryPlan)
        ensures
            *r.spec_root() == root,
    {
        QueryPlan { root: Arc::new(root) }
    }

    pub closed spec fn spec_root(&self) -> Arc<QueryPlanNode> {
        self.root
    }

    pub fn root(&self) -> (r: Arc<QueryPlanNode>)
        ensures
            r == self.spec_root(),
    {
        Arc::clone(&self.root)
    }
}

/// The operations of query plans as the planner lists them.
#[derive(Debug, PartialEq, Eq)]
pub enum QueryPlanOperation {
    /// Collects rows of `stream`.
    Collect { stream: String },
    /// Keeps the named columns.
    Projection { column_names: Vec<String> },
    /// A sliding window over the last `lower_bound_secs` seconds and
    /// `lower_bound_nanos` nanoseconds of event time.
    TimeBasedSlidingWindow { lower_bound_secs: u64, lower_bound_nanos: u32 },
}

/// Collects rows from the pump's input queue.
#[derive(Debug, PartialEq, Eq)]
pub struct CollectSubtask;

/// Keeps the named columns of a row.
#[derive(Debug, PartialEq, Eq)]
pub struct ProjectionSubtask {
    pub column_names: Vec<String>,
}

/// A time-based sliding window of the given length.
#[derive(Debug)]
pub struct SlidingWindowSubtask {
    pub length: chrono::TimeDelta,
}

/// Subtasks on one row at a time.
#[derive(Debug)]
pub enum StreamSubtask {
    Projection(ProjectionSubtask),
}

/// Subtasks over a window of rows.
#[derive(Debug)]
pub enum WindowSubtask {
    Sliding(SlidingWindowSubtask),
}

/// A node of a tree of query subtasks.
#[derive(Debug)]
pub enum QuerySubtaskNode {
    Collect(CollectSubtask),
    Stream(StreamSubtask),
    Window(WindowSubtask),
}

/// Copies a list of names.
pub fn clone_strings(v: &[String]) -> (r: Vec<String>)
    ensures
        r@ == v@,
{
    let mut r: Vec<String> = Vec::new();
    let n = v.len();
    let mut i: usize = 0;
    while i < n
        invariant
            n == v@.len(),
            i <= n,
            r@ == v@.subrange(0, i as int),
        decreases n - i,
    {
        r.push(v[i].clone());
        i = i + 1;
        assert(r@ =~= v@.subrange(0, i as int));
    }
    assert(v@.subrange(0, n as int) =~= v@);
    r
}

impl CollectSubtask {
    pub fn new() -> (r: CollectSubtask) {
        CollectSubtask
    }

    /// Takes the next row of the task's input queue; `InputTimeout` when
    /// none is waiting.
    pub fn run(&self, context: &TaskContext) -> (r: Result<Arc<Row>, SpringError>)
        requires
            context.wf(),
        ensures
            r matches Err(e) ==> e == (SpringError::InputTimeout { task: context.task }),
    {
        match context.repos.row_repository.collect_next(&context.task) {
            Some(row) => Ok(row),
            None => Err(SpringError::InputTimeout { task: context.task.clone() }),
        }
    }
}

impl ProjectionSubtask {
    pub fn new(column_names: Vec<String>) -> (r: ProjectionSubtask)
        ensures
            r.column_names == column_names,
    {
        ProjectionSubtask { column_names }
    }
}

impl SlidingWindowSubtask {
    /// A sliding window of length `length`.
    pub fn register(length: chrono::TimeDelta) -> (r: SlidingWindowSubtask)
        ensures
            r.length == length,
    {
        SlidingWindowSubtask { length }
    }
}

/// The subtask node that an operation becomes.
pub open spec fn spec_subtask_of(op: QueryPlanOperation, node: QuerySubtaskNode) -> bool {
    match op {
        QueryPlanOperation::Collect { .. } => node is Collect,
        QueryPlanOperation::Projection { column_names } => node matches QuerySubtaskNode::Stream(
            StreamSubtask::Projection(p),
        ) && p.column_names@ == column_names@,
        QueryPlanOperation::TimeBasedSlidingWindow { lower_bound_secs, lower_bound_nanos } => node
            matches QuerySubtaskNode::Window(WindowSubtask::Sliding(w)) && w.length
            == time_delta_from_std(lower_bound_secs, lower_bound_nanos),
    }
}

/// An operation that a subtask can be made of: a window's length is a
/// valid duration that fits in a chrono time span.
pub open spec fn convertible_operation(op: QueryPlanOperation) -> bool {
    match op {
        QueryPlanOperation::TimeBasedSlidingWindow { lower_bound_secs, lower_bound_nanos } => {
            lower_bound_nanos < 1_000_000_000 && fits_time_delta(lower_bound_secs, lower_bound_nanos)
        },
        _ => true,
    }
}

impl QuerySubtaskNode {
    /// The subtask that executes an operation.
    pub fn from(op: &QueryPlanOperation) -> (r: QuerySubtaskNode)
        requires
            convertible_operation(*op),
        ensures
            spec_subtask_of(*op, r),
    {
        match op {
            QueryPlanOperation::Collect { stream: _ } => QuerySubtaskNode::Collect(
                CollectSubtask::new(),
            ),
            QueryPlanOperation::Projection { column_names } => QuerySubtaskNode::Stream(
                StreamSubtask::Projection(ProjectionSubtask::new(clone_strings(column_names))),
            ),
            QueryPlanOperation::TimeBasedSlidingWindow { lower_bound_secs, lower_bound_nanos } => {
                match time_delta_of(*lower_bound_secs, *lower_bound_nanos) {
                    Ok(length) => QuerySubtaskNode::Window(
                        WindowSubtask::Sliding(SlidingWindowSubtask::register(length)),
                    ),
                    Err(_) => {
                        // excluded by the precondition
                        QuerySubtaskNode::Collect(CollectSubtask::new())
                    },
                }
            },
        }
    }
}

/// A row that a subtask made (as opposed to one read from a queue).
#[derive(Debug, PartialEq, Eq)]
pub struct NewRow {
    pub row: Row,
}

/// The output of a query: the input row itself, or a row made from it.
#[derive(Debug, PartialEq, Eq)]
pub enum FinalRow {
    Preserved(Arc<Row>),
    NewlyCreated(Row),
}

/// A tree of query subtasks compiled from a query plan.
#[derive(Debug)]
pub struct QuerySubtaskTree {
    root: QuerySubtaskNode,
    /// `Some(_)`: the output of the query plan is this new row.
    /// `None`: the output of the query plan is its input.
    latest_new_row: Option<NewRow>,
}

impl QuerySubtaskTree {
    /// Every tree compiled from a plan is rooted at a collect subtask.
    pub closed spec fn wf(&self) -> bool {
        self.root is Collect
    }

    pub closed spec fn spec_latest_new_row(&self) -> Option<NewRow> {
        self.latest_new_row
    }

    pub closed spec fn spec_root(&self) -> QuerySubtaskNode {
        self.root
    }

    /// Compiles a query plan into a tree of subtasks.
    pub fn compile(query_plan: QueryPlan) -> (r: QuerySubtaskTree)
        ensures
            r.wf(),
            r.spec_root() is Collect,
            r.spec_latest_new_row() is None,
    {
        let plan_root = query_plan.root();
        let root = Self::compile_node(plan_root);
        QuerySubtaskTree { root, latest_new_row: None }
    }

    /// The subtask of a plan node: a collect leaf becomes a collect subtask.
    pub fn compile_node(plan_node: Arc<QueryPlanNode>) -> (r: QuerySubtaskNode)
        ensures
            r is Collect,
    {
        match &*plan_node {
            QueryPlanNode::Leaf(leaf_node) => match leaf_node.op {
                LeafOperation::Collect => QuerySubtaskNode::Collect(CollectSubtask::new()),
            },
        }
    }

    /// Runs the subtasks on the next input row.
    ///
    /// Fails with `InputTimeout` when no input row is waiting. Otherwise
    /// gives the row that a subtask made, if any (and forgets it), or else
    /// the input row.
    pub fn run(&mut self, context: &TaskContext) -> (r: Result<FinalRow, SpringError>)
        requires
            old(self).wf(),
            context.wf(),
        ensures
            final(self).wf(),
            final(self).spec_root() == old(self).spec_root(),
            match r {
                Ok(FinalRow::NewlyCreated(row)) => old(self).spec_latest_new_row() == Some(
                    NewRow { row },
                ) && final(self).spec_latest_new_row() is None,
                Ok(FinalRow::Preserved(_)) => old(self).spec_latest_new_row() is None
                    && final(self).spec_latest_new_row() is None,
                Err(e) => e == (SpringError::InputTimeout { task: context.task }) && *final(self)
                    == *old(self),
            },
    {
        let collected = Self::run_dfs_post_order(&self.root, &mut self.latest_new_row, context);
        let pending = if collected.is_ok() {
            self.latest_new_row.take()
        } else {
            None
        };
        Self::final_row(collected, pending)
    }

    /// The output of a run that collected `collected` while `pending` was
    /// the row a subtask made: that new row if there is one, else the
    /// collected row; a failed collection gives its error.
    pub fn final_row(collected: Result<Arc<Row>, SpringError>, pending: Option<NewRow>) -> (r: Result<
        FinalRow,
        SpringError,
    >)
        ensures
            match collected {
                Err(e) => r == Err::<FinalRow, SpringError>(e),
                Ok(row) => match pending {
                    None => r == Ok::<FinalRow, SpringError>(FinalRow::Preserved(row)),
                    Some(n) => r == Ok::<FinalRow, SpringError>(FinalRow::NewlyCreated(n.row)),
                },
            },
    {
        match collected {
            Err(e) => Err(e),
            Ok(row) => match pending {
                None => Ok(FinalRow::Preserved(row)),
                Some(n) => Ok(FinalRow::NewlyCreated(n.row)),
            },
        }
    }

    /// Runs the subtasks below `executor`, children first.
    pub fn run_dfs_post_order(
        executor: &QuerySubtaskNode,
        latest_new_row: &mut Option<NewRow>,
        context: &TaskContext,
    ) -> (r: Result<Arc<Row>, SpringError>)
        requires
            *executor is Collect,
            context.wf(),
        ensures
            *final(latest_new_row) == *old(latest_new_row),
            r matches Err(e) ==> e == (SpringError::InputTimeout { task: context.task }),
    {
        match executor {
            QuerySubtaskNode::Collect(collect_subtask) => collect_subtask.run(context),
            _ => {
                // excluded by the precondition
                Err(SpringError::InputTimeout { task: context.task.clone() })
            },
        }
    }
}

} // verus!
