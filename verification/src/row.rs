//! Rows and the queues of rows waiting in front of each task.
use std::collections::VecDeque;
use std::sync::Arc;

use vstd::prelude::*;
use vstd::rwlock::{RwLock, RwLockPredicate};

use crate::task_id::{TaskId, TaskIdView};

verus! {

/// A value of a column.
#[derive(Debug, PartialEq, Eq)]
pub enum SqlValue {
    Null,
    BigInt(i64),
    Text(String),
    Boolean(bool),
}

/// A row of a stream.
#[derive(Debug, PartialEq, Eq)]
pub struct Row {
    pub values: Vec<SqlValue>,
}

impl Row {
    /// The row that a network source reader makes of a received line: the
    /// line as its one text column.
    pub fn from_line(line: String) -> (r: Row)
        ensures
            r.values@ == seq![SqlValue::Text(line)],
    {
        let mut values = Vec::new();
        values.push(SqlValue::Text(line));
        Row { values }
    }
}

/// The rows waiting in front of one task.
#[derive(Debug)]
pub struct TaskQueue {
    pub task: TaskId,
    pub rows: VecDeque<Arc<Row>>,
}

/// The queues of all tasks: at most one queue per task.
#[derive(Debug)]
pub struct RowQueues {
    queues: Vec<TaskQueue>,
}

/// The queue, if any, of task `t` among `qs`.
pub open spec fn queue_index(qs: Seq<TaskQueue>, t: TaskIdView) -> int {
    choose|i: int| 0 <= i < qs.len() && qs[i].task@ == t
}

/// No two queues serve the same task.
pub open spec fn distinct_tasks(qs: Seq<TaskQueue>) -> bool {
    forall|i: int, j: int|
        0 <= i < qs.len() && 0 <= j < qs.len() && i != j ==> qs[i].task@ != qs[j].task@
}

/// The queues as a map from task to the rows waiting for it.
pub open spec fn queues_map(qs: Seq<TaskQueue>) -> Map<TaskIdView, Seq<Arc<Row>>> {
    Map::new(
        |t: TaskIdView| exists|i: int| 0 <= i < qs.len() && qs[i].task@ == t,
        |t: TaskIdView| qs[queue_index(qs, t)].rows@,
    )
}

proof fn lemma_queue_index(qs: Seq<TaskQueue>, k: int)
    requires
        distinct_tasks(qs),
        0 <= k < qs.len(),
    ensures
        queue_index(qs, qs[k].task@) == k,
{
    let i = queue_index(qs, qs[k].task@);
    assert(0 <= i < qs.len() && qs[i].task@ == qs[k].task@);
}

/// Replacing the rows of queue `k` changes only that task's entry.
proof fn lemma_replace_rows(qs: Seq<TaskQueue>, k: int, q: TaskQueue)
    requires
        distinct_tasks(qs),
        0 <= k < qs.len(),
        q.task@ == qs[k].task@,
    ensures
        distinct_tasks(qs.update(k, q)),
        queues_map(qs.update(k, q)) == queues_map(qs).insert(q.task@, q.rows@),
{
    let nq = qs.update(k, q);
    assert forall|t: TaskIdView| #[trigger]
        queues_map(nq).dom().contains(t) == queues_map(qs).insert(q.task@, q.rows@).dom().contains(t) by {
        if exists|i: int| 0 <= i < nq.len() && nq[i].task@ == t {
            let i = choose|i: int| 0 <= i < nq.len() && nq[i].task@ == t;
            assert(qs[i].task@ == t || i == k);
        }
        if exists|i: int| 0 <= i < qs.len() && qs[i].task@ == t {
            let i = choose|i: int| 0 <= i < qs.len() && qs[i].task@ == t;
            assert(nq[i].task@ == t);
        }
    }
    assert forall|t: TaskIdView| queues_map(nq).dom().contains(t) implies queues_map(nq)[t]
        == queues_map(qs).insert(q.task@, q.rows@)[t] by {
        let i = choose|i: int| 0 <= i < nq.len() && nq[i].task@ == t;
        lemma_queue_index(nq, i);
        if i != k {
            lemma_queue_index(qs, i);
        }
    }
    assert(queues_map(nq) =~= queues_map(qs).insert(q.task@, q.rows@));
}

/// Appending a queue for a new task adds that task's entry.
proof fn lemma_push_queue(qs: Seq<TaskQueue>, q: TaskQueue)
    requires
        distinct_tasks(qs),
        !queues_map(qs).dom().contains(q.task@),
    ensures
        distinct_tasks(qs.push(q)),
        queues_map(qs.push(q)) == queues_map(qs).insert(q.task@, q.rows@),
{
    let nq = qs.push(q);
    assert forall|i: int| 0 <= i < qs.len() implies nq[i].task@ != q.task@ by {
        assert(qs[i].task@ != q.task@);
    }
    assert forall|t: TaskIdView| #[trigger]
        queues_map(nq).dom().contains(t) == queues_map(qs).insert(q.task@, q.rows@).dom().contains(t) by {
        if exists|i: int| 0 <= i < qs.len() && qs[i].task@ == t {
            let i = choose|i: int| 0 <= i < qs.len() && qs[i].task@ == t;
            assert(nq[i].task@ == t);
        }
        if t == q.task@ {
            assert(nq[qs.len() as int].task@ == t);
        }
        if exists|i: int| 0 <= i < nq.len() && nq[i].task@ == t {
            let i = choose|i: int| 0 <= i < nq.len() && nq[i].task@ == t;
            if i < qs.len() {
                assert(qs[i].task@ == t);
            }
        }
    }
    assert forall|t: TaskIdView| queues_map(nq).dom().contains(t) implies queues_map(nq)[t]
        == queues_map(qs).insert(q.task@, q.rows@)[t] by {
        let i = choose|i: int| 0 <= i < nq.len() && nq[i].task@ == t;
        lemma_queue_index(nq, i);
        if i < qs.len() {
            lemma_queue_index(qs, i);
        }
    }
    assert(queues_map(nq) =~= queues_map(qs).insert(q.task@, q.rows@));
}

/// The rows waiting for `t` in a queue map (none where it has no queue).
pub open spec fn rows_of(m: Map<TaskIdView, Seq<Arc<Row>>>, t: TaskIdView) -> Seq<Arc<Row>> {
    if m.dom().contains(t) {
        m[t]
    } else {
        Seq::empty()
    }
}

/// The queue map after `row` is appended to the queues of `tasks`, one
/// after the other.
pub open spec fn spec_emit(
    m: Map<TaskIdView, Seq<Arc<Row>>>,
    row: Arc<Row>,
    tasks: Seq<TaskIdView>,
) -> Map<TaskIdView, Seq<Arc<Row>>>
    decreases tasks.len(),
{
    if tasks.len() == 0 {
        m
    } else {
        let before = spec_emit(m, row, tasks.drop_last());
        before.insert(tasks.last(), rows_of(before, tasks.last()).push(row))
    }
}

/// Emitting a row reaches every listed task and no other: the queue of a
/// task that is not listed does not change; the queue of a listed task keeps
/// all it held, in order, and ends with the row; listed once (no task twice
/// in the list), its queue gains exactly that row.
pub proof fn law_emit_reaches_every_listed_task(
    m: Map<TaskIdView, Seq<Arc<Row>>>,
    row: Arc<Row>,
    tasks: Seq<TaskIdView>,
    t: TaskIdView,
)
    ensures
        !tasks.contains(t) ==> rows_of(spec_emit(m, row, tasks), t) == rows_of(m, t),
        tasks.contains(t) ==> {
            let after = rows_of(spec_emit(m, row, tasks), t);
            &&& after.len() > rows_of(m, t).len()
            &&& after.last() == row
            &&& after.subrange(0, rows_of(m, t).len() as int) == rows_of(m, t)
        },
        tasks.no_duplicates() && tasks.contains(t) ==> rows_of(spec_emit(m, row, tasks), t)
            == rows_of(m, t).push(row),
    decreases tasks.len(),
{
    if tasks.len() > 0 {
        let init = tasks.drop_last();
        law_emit_reaches_every_listed_task(m, row, init, t);
        let before = spec_emit(m, row, init);
        let after = rows_of(spec_emit(m, row, tasks), t);
        assert(spec_emit(m, row, tasks) == before.insert(tasks.last(), rows_of(before, tasks.last()).push(row)));
        if tasks.last() == t {
            assert(after == rows_of(before, t).push(row));
            if init.contains(t) {
                let b = rows_of(before, t);
                assert(after.subrange(0, rows_of(m, t).len() as int) =~= b.subrange(
                    0,
                    rows_of(m, t).len() as int,
                ));
                if tasks.no_duplicates() {
                    let k = choose|k: int| 0 <= k < init.len() && init[k] == t;
                    assert(tasks[k] == tasks[tasks.len() - 1]);
                    assert(false);
                }
            } else {
                assert(after.subrange(0, rows_of(m, t).len() as int) =~= rows_of(m, t));
            }
        } else {
            assert(after == rows_of(before, t));
            if tasks.contains(t) {
                let k = choose|k: int| 0 <= k < tasks.len() && tasks[k] == t;
                assert(init[k] == t);
                assert(init.contains(t));
            }
            if init.contains(t) {
                let k = choose|k: int| 0 <= k < init.len() && init[k] == t;
                assert(tasks[k] == t);
            }
            if tasks.no_duplicates() {
                assert(init.no_duplicates()) by {
                    assert forall|i: int, j: int|
                        0 <= i < init.len() && 0 <= j < init.len() && i != j implies init[i] != init[j] by {
                        assert(tasks[i] == init[i] && tasks[j] == init[j]);
                    }
                }
            }
        }
    }
}

/// Rows leave a task's queue in the order they entered it: once `row` is
/// appended for `t`, the next row collected for `t` is the one that was
/// oldest before, or `row` itself when the queue was empty, and `row` comes
/// after all that were waiting; the queues of other tasks do not change.
pub proof fn law_row_queue_fifo(
    m: Map<TaskIdView, Seq<Arc<Row>>>,
    t: TaskIdView,
    row: Arc<Row>,
    other: TaskIdView,
)
    ensures
        ({
            let after = m.insert(t, rows_of(m, t).push(row));
            &&& rows_of(after, t)[0] == if rows_of(m, t).len() > 0 {
                rows_of(m, t)[0]
            } else {
                row
            }
            &&& rows_of(after, t).last() == row
            &&& rows_of(after, t).len() == rows_of(m, t).len() + 1
            &&& other != t ==> rows_of(after, other) == rows_of(m, other)
        }),
{
}

impl View for RowQueues {
    type V = Map<TaskIdView, Seq<Arc<Row>>>;

    closed spec fn view(&self) -> Map<TaskIdView, Seq<Arc<Row>>> {
        queues_map(self.queues@)
    }
}

impl RowQueues {
    /// No two queues serve the same task.
    pub closed spec fn wf(&self) -> bool {
        distinct_tasks(self.queues@)
    }

    /// No queue at all.
    pub fn new() -> (r: RowQueues)
        ensures
            r.wf(),
            r@ == Map::<TaskIdView, Seq<Arc<Row>>>::empty(),
    {
        let r = RowQueues { queues: Vec::new() };
        assert(r@ =~= Map::<TaskIdView, Seq<Arc<Row>>>::empty());
        r
    }

    fn find(&self, task: &TaskId) -> (r: Option<usize>)
        requires
            self.wf(),
        ensures
            match r {
                Some(i) => i < self.queues@.len() && self.queues@[i as int].task@ == task@,
                None => !self@.dom().contains(task@),
            },
    {
        let n = self.queues.len();
        let mut i: usize = 0;
        while i < n
            invariant
                n == self.queues@.len(),
                i <= n,
                forall|j: int| 0 <= j < i ==> self.queues@[j].task@ != task@,
            decreases n - i,
        {
            if self.queues[i].task.same_as(task) {
                return Some(i);
            }
            i = i + 1;
        }
        None
    }

    /// Takes the oldest row waiting for `task`, if any.
    pub fn collect_next(&mut self, task: &TaskId) -> (r: Option<Arc<Row>>)
        requires
            old(self).wf(),
        ensures
            final(self).wf(),
            match r {
                Some(row) => {
                    &&& rows_of(old(self)@, task@).len() > 0
                    &&& row == rows_of(old(self)@, task@)[0]
                    &&& final(self)@ == old(self)@.insert(task@, rows_of(old(self)@, task@).drop_first())
                },
                None => rows_of(old(self)@, task@).len() == 0 && final(self)@ == old(self)@,
            },
    {
        match self.find(task) {
            Some(i) => {
                proof {
                    lemma_queue_index(self.queues@, i as int);
                }
                let ghost qs = self.queues@;
                let mut q = self.queues.remove(i);
                let r = q.rows.pop_front();
                let ghost nq = q;
                self.queues.insert(i, q);
                proof {
                    assert(self.queues@ =~= qs.update(i as int, nq));
                    lemma_replace_rows(qs, i as int, nq);
                    if r is None {
                        assert(self@ =~= old(self)@);
                    }
                }
                r
            },
            None => None,
        }
    }

    /// Appends `row` to the queue of `task`, making one if it has none.
    pub fn push(&mut self, task: &TaskId, row: Arc<Row>)
        requires
            old(self).wf(),
        ensures
            final(self).wf(),
            final(self)@ == old(self)@.insert(task@, rows_of(old(self)@, task@).push(row)),
    {
        match self.find(task) {
            Some(i) => {
                proof {
                    lemma_queue_index(self.queues@, i as int);
                }
                let ghost qs = self.queues@;
                let mut q = self.queues.remove(i);
                q.rows.push_back(row);
                let ghost nq = q;
                self.queues.insert(i, q);
                proof {
                    assert(self.queues@ =~= qs.update(i as int, nq));
                    lemma_replace_rows(qs, i as int, nq);
                }
            },
            None => {
                let ghost qs = self.queues@;
                let mut rows = VecDeque::new();
                rows.push_back(row);
                let q = TaskQueue { task: task.clone(), rows };
                let ghost nq = q;
                self.queues.push(q);
                proof {
                    lemma_push_queue(qs, nq);
                }
            },
        }
    }

    /// Appends `row` to the queues of each of `tasks`, in order.
    pub fn emit(&mut self, row: &Arc<Row>, tasks: &[TaskId])
        requires
            old(self).wf(),
        ensures
            final(self).wf(),
            final(self)@ == spec_emit(old(self)@, *row, tasks@.map_values(|t: TaskId| t@)),
    {
        let ghost ts = tasks@.map_values(|t: TaskId| t@);
        let n = tasks.len();
        let mut i: usize = 0;
        while i < n
            invariant
                n == tasks@.len(),
                ts == tasks@.map_values(|t: TaskId| t@),
                i <= n,
                self.wf(),
                self@ == spec_emit(old(self)@, *row, ts.subrange(0, i as int)),
            decreases n - i,
        {
            self.push(&tasks[i], row.clone());
            proof {
                assert(ts.subrange(0, i + 1).drop_last() =~= ts.subrange(0, i as int));
            }
            i = i + 1;
        }
        assert(ts.subrange(0, n as int) =~= ts);
    }

    /// Replaces all queues with an empty queue for each of `tasks`.
    pub fn reset(&mut self, tasks: &[TaskId])
        ensures
            final(self).wf(),
            final(self)@.dom() =~= tasks@.map_values(|t: TaskId| t@).to_set(),
            forall|t: TaskIdView| #[trigger] final(self)@.dom().contains(t) ==> final(self)@[t] == Seq::<
                Arc<Row>,
            >::empty(),
    {
        let mut fresh = RowQueues::new();
        let ghost ts = tasks@.map_values(|t: TaskId| t@);
        let n = tasks.len();
        let mut i: usize = 0;
        while i < n
            invariant
                n == tasks@.len(),
                ts == tasks@.map_values(|t: TaskId| t@),
                i <= n,
                fresh.wf(),
                fresh@.dom() =~= ts.subrange(0, i as int).to_set(),
                forall|t: TaskIdView| #[trigger] fresh@.dom().contains(t) ==> fresh@[t] == Seq::<
                    Arc<Row>,
                >::empty(),
            decreases n - i,
        {
            if fresh.find(&tasks[i]).is_none() {
                let ghost qs = fresh.queues@;
                let q = TaskQueue { task: tasks[i].clone(), rows: VecDeque::new() };
                let ghost nq = q;
                fresh.queues.push(q);
                proof {
                    lemma_push_queue(qs, nq);
                }
            }
            proof {
                assert(ts.subrange(0, i + 1) =~= ts.subrange(0, i as int).push(ts[i as int]));
                broadcast use vstd::seq_lib::group_seq_properties;
                assert(ts.subrange(0, i + 1).to_set() =~= ts.subrange(0, i as int).to_set().insert(ts[i as int]));
            }
            i = i + 1;
        }
        assert(ts.subrange(0, n as int) =~= ts);
        *self = fresh;
    }
}

/// The lock's invariant: the queues stay well formed.
pub struct RowQueuesInv;

impl RwLockPredicate<RowQueues> for RowQueuesInv {
    open spec fn inv(self, v: RowQueues) -> bool {
        v.wf()
    }
}

/// The receipt of an emission: `row` was appended to the queues of `tasks`,
/// which went from `before` to `after`. Only `RowRepository::emit` makes
/// one.
pub struct Emitted {
    row: Ghost<Arc<Row>>,
    tasks: Ghost<Seq<TaskIdView>>,
    before: Ghost<Map<TaskIdView, Seq<Arc<Row>>>>,
    after: Ghost<Map<TaskIdView, Seq<Arc<Row>>>>,
}

impl Emitted {
    pub closed spec fn row(&self) -> Arc<Row> {
        self.row@
    }

    pub closed spec fn tasks(&self) -> Seq<TaskIdView> {
        self.tasks@
    }

    pub closed spec fn before(&self) -> Map<TaskIdView, Seq<Arc<Row>>> {
        self.before@
    }

    pub closed spec fn after(&self) -> Map<TaskIdView, Seq<Arc<Row>>> {
        self.after@
    }
}

/// The row queues, shared by the worker threads.
pub struct RowRepository {
    queues: RwLock<RowQueues, RowQueuesInv>,
}

impl RowRepository {
    pub closed spec fn wf(&self) -> bool {
        self.queues.pred() == RowQueuesInv
    }

    /// A repository without queues.
    pub fn new() -> (r: RowRepository)
        ensures
            r.wf(),
    {
        RowRepository { queues: RwLock::new(RowQueues::new(), Ghost(RowQueuesInv)) }
    }

    /// Takes the oldest row waiting for `task`; what is there depends on
    /// the other threads.
    pub fn collect_next(&self, task: &TaskId) -> (r: Option<Arc<Row>>)
        requires
            self.wf(),
    {
        let (mut queues, handle) = self.queues.acquire_write();
        let r = queues.collect_next(task);
        handle.release_write(queues);
        r
    }

    /// Appends `row` to the queue of each of `tasks`. The receipt records
    /// the queues as they were when the row came and as they were left.
    pub fn emit(&self, row: &Arc<Row>, tasks: &[TaskId]) -> (r: Emitted)
        requires
            self.wf(),
        ensures
            r.row() == *row,
            r.tasks() == tasks@.map_values(|t: TaskId| t@),
            r.after() == spec_emit(r.before(), *row, r.tasks()),
    {
        let (mut queues, handle) = self.queues.acquire_write();
        let ghost before = queues@;
        queues.emit(row, tasks);
        let ghost after = queues@;
        handle.release_write(queues);
        Emitted {
            row: Ghost(*row),
            tasks: Ghost(tasks@.map_values(|t: TaskId| t@)),
            before: Ghost(before),
            after: Ghost(after),
        }
    }

    /// Drops every waiting row: each of `tasks` gets an empty queue.
    pub fn reset(&self, tasks: &[TaskId])
        requires
            self.wf(),
    {
        let (mut queues, handle) = self.queues.acquire_write();
        queues.reset(tasks);
        handle.release_write(queues);
    }
}

} // verus!
