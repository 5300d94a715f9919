//! The pipeline graph (streams as nodes; source readers, pumps and sink
//! writers as edges) and the task graph derived from it, both held in a
//! petgraph directed graph.
use std::sync::Arc;

use petgraph::graph::DiGraph;
use vstd::prelude::*;

use crate::option::Options;
use crate::query::QueryPlan;
use crate::task::{PumpTask, SinkTask, SourceTask, Task, task_ids_view};
use crate::task_id::{TaskId, TaskIdView, TaskKind};
use crate::window_param::WindowOperationParameter;

verus! {

/// The outside graph type of petgraph.
#[verifier::external_type_specification]
#[verifier::external_body]
#[verifier::reject_recursive_types(N)]
#[verifier::reject_recursive_types(E)]
#[verifier::reject_recursive_types(Ty)]
#[verifier::reject_recursive_types(Ix)]
pub struct ExGraph<N, E, Ty, Ix>(petgraph::graph::Graph<N, E, Ty, Ix>);

/// The outside marker of directed graphs.
#[verifier::external_type_specification]
#[verifier::external_body]
pub struct ExDirected(petgraph::Directed);

/// The node weights of a graph, by node index.
pub uninterp spec fn graph_nodes(g: DiGraph<String, u64>) -> Seq<Seq<char>>;

/// The edges of a graph, by edge index: source node, target node, weight.
pub uninterp spec fn graph_edges(g: DiGraph<String, u64>) -> Seq<(usize, usize, u64)>;

/// `Graph::new`: a graph without nodes or edges.
#[verifier::external_body]
fn graph_new() -> (r: DiGraph<String, u64>)
    ensures
        graph_nodes(r) == Seq::<Seq<char>>::empty(),
        graph_edges(r) == Seq::<(usize, usize, u64)>::empty(),
{
    DiGraph::new()
}

/// `Graph::add_node`: appends a node and gives its index (petgraph panics
/// once `u32::MAX` nodes exist).
#[verifier::external_body]
fn graph_add_node(g: &mut DiGraph<String, u64>, weight: String) -> (r: usize)
    requires
        graph_nodes(*old(g)).len() < u32::MAX,
    ensures
        r == graph_nodes(*old(g)).len(),
        graph_nodes(*final(g)) == graph_nodes(*old(g)).push(weight@),
        graph_edges(*final(g)) == graph_edges(*old(g)),
{
    g.add_node(weight).index()
}

/// `Graph::add_edge`: appends an edge from `a` to `b` (petgraph panics on
/// an index out of bounds and once `u32::MAX` edges exist).
#[verifier::external_body]
fn graph_add_edge(g: &mut DiGraph<String, u64>, a: usize, b: usize, weight: u64) -> (r: usize)
    requires
        a < graph_nodes(*old(g)).len(),
        b < graph_nodes(*old(g)).len(),
        graph_edges(*old(g)).len() < u32::MAX,
    ensures
        r == graph_edges(*old(g)).len(),
        graph_nodes(*final(g)) == graph_nodes(*old(g)),
        graph_edges(*final(g)) == graph_edges(*old(g)).push((a, b, weight)),
{
    g.add_edge(
        petgraph::graph::NodeIndex::new(a),
        petgraph::graph::NodeIndex::new(b),
        weight,
    ).index()
}

/// `Graph::map` with weights copied: a graph of the same nodes and edges.
#[verifier::external_body]
fn graph_copy(g: &DiGraph<String, u64>) -> (r: DiGraph<String, u64>)
    ensures
        graph_nodes(r) == graph_nodes(*g),
        graph_edges(r) == graph_edges(*g),
{
    g.map(|_, name: &String| name.clone(), |_, weight: &u64| *weight)
}

/// `Graph::raw_nodes`: the node weights, by index.
#[verifier::external_body]
fn graph_raw_nodes(g: &DiGraph<String, u64>) -> (r: Vec<&String>)
    ensures
        r@.len() == graph_nodes(*g).len(),
        forall|i: int| 0 <= i < r@.len() ==> r@[i]@ == graph_nodes(*g)[i],
{
    g.raw_nodes().iter().map(|n| &n.weight).collect()
}

/// `Graph::raw_edges`: source, target and weight of each edge, by index.
#[verifier::external_body]
fn graph_raw_edges(g: &DiGraph<String, u64>) -> (r: Vec<(usize, usize, u64)>)
    ensures
        r@ == graph_edges(*g),
{
    g.raw_edges().iter().map(|e| (e.source().index(), e.target().index(), e.weight)).collect()
}

/// What a pump inserts into.
#[derive(Debug, PartialEq, Eq)]
pub struct InsertPlan {
    pub stream: String,
}

/// A pump: a query from one stream inserted into another.
#[derive(Debug)]
pub struct PumpModel {
    pub name: String,
    pub query_plan: QueryPlan,
    pub window_param: Option<WindowOperationParameter>,
    pub insert_plan: InsertPlan,
}

impl PumpModel {
    /// A copy of the window parameter.
    pub fn clone_window_param(&self) -> (r: Option<WindowOperationParameter>)
        ensures
            (r matches Some(WindowOperationParameter::GroupAggregation(_))) == (
            self.window_param matches Some(WindowOperationParameter::GroupAggregation(_))),
            (r matches Some(WindowOperationParameter::Join(_))) == (
            self.window_param matches Some(WindowOperationParameter::Join(_))),
    {
        match &self.window_param {
            Some(WindowOperationParameter::GroupAggregation(p)) => Some(
                WindowOperationParameter::GroupAggregation(
                    crate::window_param::AggregateParameter {
                        aggr_func: p.aggr_func,
                        aggr_expr: p.aggr_expr,
                        group_by: crate::window_param::GroupByLabels::new(
                            copy_labels(p.group_by.as_labels()),
                        ),
                    },
                ),
            ),
            Some(WindowOperationParameter::Join(p)) => Some(
                WindowOperationParameter::Join(
                    crate::window_param::JoinParameter { join_type: p.join_type, on_expr: p.on_expr },
                ),
            ),
            None => None,
        }
    }
}

fn copy_labels(v: &[crate::window_param::ValueExprLabel]) -> (r: Vec<
    crate::window_param::ValueExprLabel,
>)
    ensures
        r@ == v@,
{
    let mut r = Vec::new();
    let n = v.len();
    let mut i: usize = 0;
    while i < n
        invariant
            n == v@.len(),
            i <= n,
            r@ == v@.subrange(0, i as int),
        decreases n - i,
    {
        r.push(v[i]);
        i = i + 1;
        assert(r@ =~= v@.subrange(0, i as int));
    }
    assert(v@.subrange(0, n as int) =~= v@);
    r
}

/// Kinds of source readers.
#[derive(Debug, Clone, Copy, PartialEq, Eq, Structural)]
pub enum SourceReaderType {
    NetClient,
    NetServer,
}

/// A source reader feeding a stream.
#[derive(Debug, PartialEq, Eq)]
pub struct SourceReaderModel {
    pub name: String,
    pub source_reader_type: SourceReaderType,
    pub dest_stream: String,
    pub options: Options,
}

/// Kinds of sink writers.
#[derive(Debug, Clone, Copy, PartialEq, Eq, Structural)]
pub enum SinkWriterType {
    InMemoryQueue,
    Net,
}

/// A sink writer taking the rows of a stream.
#[derive(Debug, PartialEq, Eq)]
pub struct SinkWriterModel {
    pub name: String,
    pub sink_writer_type: SinkWriterType,
    pub from_stream: String,
    pub options: Options,
}

/// An edge of the pipeline graph.
#[derive(Debug)]
pub enum Edge {
    Pump(PumpModel),
    Source(SourceReaderModel),
    Sink(SinkWriterModel),
}

/// The task that an edge becomes.
pub open spec fn edge_task_id(e: Edge) -> TaskIdView {
    match e {
        Edge::Pump(p) => TaskIdView { kind: TaskKind::Pump, name: p.name@ },
        Edge::Source(s) => TaskIdView { kind: TaskKind::Source, name: s.name@ },
        Edge::Sink(s) => TaskIdView { kind: TaskKind::Sink, name: s.name@ },
    }
}

/// The first stream node (node 0 is the virtual root) named `name`.
pub open spec fn is_stream_node(nodes: Seq<Seq<char>>, name: Seq<char>, k: int) -> bool {
    &&& 1 <= k < nodes.len()
    &&& nodes[k] == name
    &&& forall|j: int| 1 <= j < k ==> nodes[j] != name
}

proof fn lemma_stream_node_unique(nodes: Seq<Seq<char>>, name: Seq<char>, k: int)
    requires
        is_stream_node(nodes, name, k),
    ensures
        (choose|kk: int| is_stream_node(nodes, name, kk)) == k,
{
    let kk = choose|kk: int| is_stream_node(nodes, name, kk);
    if kk < k {
        assert(nodes[kk] != name);
    } else if kk > k {
        assert(nodes[k] != name);
    }
}

/// The tasks on the edges, among the first `n`, that leave node `node`.
pub open spec fn tasks_leaving(
    es: Seq<(usize, usize, u64)>,
    models: Seq<Edge>,
    node: int,
    n: int,
) -> Seq<TaskIdView>
    decreases n,
{
    if n <= 0 {
        Seq::empty()
    } else {
        let prev = tasks_leaving(es, models, node, n - 1);
        if es[n - 1].0 == node {
            prev.push(edge_task_id(models[n - 1]))
        } else {
            prev
        }
    }
}

/// The tasks downstream of stream `name`: those on the edges leaving its
/// node, in edge order; none when there is no such stream.
pub open spec fn spec_downstream_tasks(g: PipelineGraph, name: Seq<char>) -> Seq<TaskIdView> {
    match spec_stream_node(g.nodes(), name) {
        Some(k) => tasks_leaving(
            graph_edges(g.spec_graph()),
            g.spec_edges(),
            k,
            g.spec_edges().len() as int,
        ),
        None => Seq::empty(),
    }
}

/// The node of the stream named `name`, if there is one.
pub open spec fn spec_stream_node(nodes: Seq<Seq<char>>, name: Seq<char>) -> Option<int> {
    if exists|k: int| is_stream_node(nodes, name, k) {
        Some(choose|k: int| is_stream_node(nodes, name, k))
    } else {
        None
    }
}

/// The pipeline: streams are nodes (node 0 is a virtual root); a source
/// reader is an edge from the root to its stream, a pump an edge between
/// two streams, and a sink writer an edge from its stream to the root.
#[derive(Debug)]
pub struct PipelineGraph {
    graph: DiGraph<String, u64>,
    edges: Vec<Edge>,
}

impl PipelineGraph {
    /// The graph holds the root, and the `i`-th edge carries weight `i`,
    /// the index of its model.
    pub closed spec fn wf(&self) -> bool {
        &&& graph_nodes(self.graph).len() >= 1
        &&& graph_edges(self.graph).len() == self.edges@.len()
        &&& forall|i: int|
            0 <= i < self.edges@.len() ==> (#[trigger] graph_edges(self.graph)[i]).2 == i
    }

    pub closed spec fn spec_graph(&self) -> DiGraph<String, u64> {
        self.graph
    }

    pub closed spec fn spec_edges(&self) -> Seq<Edge> {
        self.edges@
    }

    /// The stream names of the graph, by node.
    pub open spec fn nodes(&self) -> Seq<Seq<char>> {
        graph_nodes(self.spec_graph())
    }

    /// A graph with only the virtual root.
    pub fn new() -> (r: PipelineGraph)
        ensures
            r.wf(),
            r.nodes() == seq![Seq::<char>::empty()],
            r.spec_edges().len() == 0,
    {
        let mut graph = graph_new();
        graph_add_node(&mut graph, String::new());
        assert(graph_nodes(graph) =~= seq![Seq::<char>::empty()]);
        PipelineGraph { graph, edges: Vec::new() }
    }

    /// Adds a stream and gives its node.
    pub fn add_stream(&mut self, name: String) -> (r: usize)
        requires
            old(self).wf(),
            old(self).nodes().len() < u32::MAX,
        ensures
            final(self).wf(),
            r == old(self).nodes().len(),
            final(self).nodes() == old(self).nodes().push(name@),
            final(self).spec_edges() == old(self).spec_edges(),
    {
        graph_add_node(&mut self.graph, name)
    }

    fn add_edge(&mut self, a: usize, b: usize, edge: Edge)
        requires
            old(self).wf(),
            a < old(self).nodes().len(),
            b < old(self).nodes().len(),
            old(self).spec_edges().len() < u32::MAX,
        ensures
            final(self).wf(),
            final(self).nodes() == old(self).nodes(),
            final(self).spec_edges() == old(self).spec_edges().push(edge),
            graph_edges(final(self).spec_graph()) == graph_edges(old(self).spec_graph()).push(
                (a, b, old(self).spec_edges().len() as u64),
            ),
    {
        let w = self.edges.len() as u64;
        graph_add_edge(&mut self.graph, a, b, w);
        self.edges.push(edge);
    }

    /// Adds a source reader feeding the stream of node `stream`.
    pub fn add_source_reader(&mut self, model: SourceReaderModel, stream: usize)
        requires
            old(self).wf(),
            stream < old(self).nodes().len(),
            old(self).spec_edges().len() < u32::MAX,
        ensures
            final(self).wf(),
            final(self).nodes() == old(self).nodes(),
            final(self).spec_edges() == old(self).spec_edges().push(Edge::Source(model)),
            graph_edges(final(self).spec_graph()) == graph_edges(old(self).spec_graph()).push(
                (0, stream, old(self).spec_edges().len() as u64),
            ),
    {
        self.add_edge(0, stream, Edge::Source(model));
    }

    /// Adds a pump from the stream of node `upstream` into that of node
    /// `downstream`.
    pub fn add_pump(&mut self, pump: PumpModel, upstream: usize, downstream: usize)
        requires
            old(self).wf(),
            upstream < old(self).nodes().len(),
            downstream < old(self).nodes().len(),
            old(self).spec_edges().len() < u32::MAX,
        ensures
            final(self).wf(),
            final(self).nodes() == old(self).nodes(),
            final(self).spec_edges() == old(self).spec_edges().push(Edge::Pump(pump)),
            graph_edges(final(self).spec_graph()) == graph_edges(old(self).spec_graph()).push(
                (upstream, downstream, old(self).spec_edges().len() as u64),
            ),
    {
        self.add_edge(upstream, downstream, Edge::Pump(pump));
    }

    /// Adds a sink writer taking the rows of the stream of node `stream`.
    pub fn add_sink_writer(&mut self, model: SinkWriterModel, stream: usize)
        requires
            old(self).wf(),
            stream < old(self).nodes().len(),
            old(self).spec_edges().len() < u32::MAX,
        ensures
            final(self).wf(),
            final(self).nodes() == old(self).nodes(),
            final(self).spec_edges() == old(self).spec_edges().push(Edge::Sink(model)),
            graph_edges(final(self).spec_graph()) == graph_edges(old(self).spec_graph()).push(
                (stream, 0, old(self).spec_edges().len() as u64),
            ),
    {
        self.add_edge(stream, 0, Edge::Sink(model));
    }

    /// The petgraph graph.
    pub fn as_petgraph(&self) -> (r: &DiGraph<String, u64>)
        ensures
            *r == self.spec_graph(),
    {
        &self.graph
    }

    /// The node of the stream named `name`, if there is one.
    pub fn stream_node(&self, name: &String) -> (r: Option<usize>)
        requires
            self.wf(),
        ensures
            match r {
                Some(k) => spec_stream_node(self.nodes(), name@) == Some(k as int),
                None => spec_stream_node(self.nodes(), name@) is None,
            },
    {
        let nodes = graph_raw_nodes(&self.graph);
        let n = nodes.len();
        let mut i: usize = 1;
        while i < n
            invariant
                n == nodes@.len(),
                n == self.nodes().len(),
                forall|j: int| 0 <= j < n ==> nodes@[j]@ == self.nodes()[j],
                1 <= i <= n || n == 0,
                forall|j: int| 1 <= j < i ==> self.nodes()[j] != name@,
            decreases n - i,
        {
            if *nodes[i] == *name {
                proof {
                    lemma_stream_node_unique(self.nodes(), name@, i as int);
                }
                return Some(i);
            }
            i = i + 1;
        }
        None
    }

    /// The tasks on the edges leaving the stream named `name`, in edge
    /// order.
    pub fn downstream_tasks_of_stream(&self, name: &String) -> (r: Vec<TaskId>)
        requires
            self.wf(),
        ensures
            task_ids_view(r@) == spec_downstream_tasks(*self, name@),
    {
        let mut r: Vec<TaskId> = Vec::new();
        match self.stream_node(name) {
            None => {
                assert(task_ids_view(r@) =~= Seq::<TaskIdView>::empty());
                r
            },
            Some(k) => {
                let es = graph_raw_edges(&self.graph);
                let n = self.edges.len();
                let mut i: usize = 0;
                while i < n
                    invariant
                        n == self.edges@.len(),
                        es@ == graph_edges(self.graph),
                        es@.len() == n,
                        i <= n,
                        task_ids_view(r@) == tasks_leaving(es@, self.edges@, k as int, i as int),
                    decreases n - i,
                {
                    if es[i].0 == k {
                        r.push(edge_task_id_of(&self.edges[i]));
                    }
                    i = i + 1;
                    assert(task_ids_view(r@) =~= tasks_leaving(
                        es@,
                        self.edges@,
                        k as int,
                        i as int,
                    ));
                }
                assert(spec_downstream_tasks(*self, name@) == tasks_leaving(
                    es@,
                    self.edges@,
                    k as int,
                    n as int,
                ));
                r
            },
        }
    }

    /// The source readers, in edge order.
    pub fn all_sources(&self) -> (r: Vec<&SourceReaderModel>)
        ensures
            r@.map_values(|m: &SourceReaderModel| *m) == source_models(self.spec_edges()),
    {
        let mut r: Vec<&SourceReaderModel> = Vec::new();
        let n = self.edges.len();
        let mut i: usize = 0;
        while i < n
            invariant
                n == self.edges@.len(),
                i <= n,
                r@.map_values(|m: &SourceReaderModel| *m) == source_models(
                    self.edges@.subrange(0, i as int),
                ),
            decreases n - i,
        {
            if let Edge::Source(s) = &self.edges[i] {
                r.push(s);
            }
            assert(self.edges@.subrange(0, i + 1).drop_last() =~= self.edges@.subrange(0, i as int));
            i = i + 1;
            assert(r@.map_values(|m: &SourceReaderModel| *m) =~= source_models(
                self.edges@.subrange(0, i as int),
            ));
        }
        assert(self.edges@.subrange(0, n as int) =~= self.edges@);
        r
    }

    /// The sink writers, in edge order.
    pub fn all_sinks(&self) -> (r: Vec<&SinkWriterModel>)
        ensures
            r@.map_values(|m: &SinkWriterModel| *m) == sink_models(self.spec_edges()),
    {
        let mut r: Vec<&SinkWriterModel> = Vec::new();
        let n = self.edges.len();
        let mut i: usize = 0;
        while i < n
            invariant
                n == self.edges@.len(),
                i <= n,
                r@.map_values(|m: &SinkWriterModel| *m) == sink_models(
                    self.edges@.subrange(0, i as int),
                ),
            decreases n - i,
        {
            if let Edge::Sink(s) = &self.edges[i] {
                r.push(s);
            }
            assert(self.edges@.subrange(0, i + 1).drop_last() =~= self.edges@.subrange(0, i as int));
            i = i + 1;
            assert(r@.map_values(|m: &SinkWriterModel| *m) =~= sink_models(
                self.edges@.subrange(0, i as int),
            ));
        }
        assert(self.edges@.subrange(0, n as int) =~= self.edges@);
        r
    }
}

/// The source readers among the edges, in order.
pub open spec fn source_models(es: Seq<Edge>) -> Seq<SourceReaderModel>
    decreases es.len(),
{
    if es.len() == 0 {
        Seq::empty()
    } else {
        let prev = source_models(es.drop_last());
        match es.last() {
            Edge::Source(s) => prev.push(s),
            _ => prev,
        }
    }
}

/// The sink writers among the edges, in order.
pub open spec fn sink_models(es: Seq<Edge>) -> Seq<SinkWriterModel>
    decreases es.len(),
{
    if es.len() == 0 {
        Seq::empty()
    } else {
        let prev = sink_models(es.drop_last());
        match es.last() {
            Edge::Sink(s) => prev.push(s),
            _ => prev,
        }
    }
}

/// The identifier of the task that an edge becomes.
pub fn edge_task_id_of(e: &Edge) -> (r: TaskId)
    ensures
        r@ == edge_task_id(*e),
{
    match e {
        Edge::Pump(p) => TaskId::from_pump(&p.name),
        Edge::Source(s) => TaskId::from_source_reader(&s.name),
        Edge::Sink(s) => TaskId::from_sink_writer(&s.name),
    }
}

/// `task` is the task that edge `e` of `g` becomes: a pump task for a pump
/// (executing its query plan and inserting into the tasks downstream of
/// its stream, with the window of its window operation), a source task for a source reader (moving rows to
/// the tasks downstream of its stream), a sink task for a sink writer.
pub open spec fn task_of_edge(task: Task, e: Edge, g: PipelineGraph) -> bool {
    &&& task.spec_id()@ == edge_task_id(e)
    &&& match e {
        Edge::Pump(p) => task matches Task::Pump(t) && t.downstream() == spec_downstream_tasks(
            g,
            p.insert_plan.stream@,
        ) && t.spec_query_plan() == p.query_plan && t.has_aggr_window() == (p.window_param matches Some(
            WindowOperationParameter::GroupAggregation(_),
        )) && t.has_join_window() == (p.window_param matches Some(
            WindowOperationParameter::Join(_),
        )),
        Edge::Source(s) => task matches Task::Source(t) && t.downstream() == spec_downstream_tasks(
            g,
            s.dest_stream@,
        ),
        Edge::Sink(_) => task is Sink,
    }
}

/// The task graph: the pipeline's nodes and edges, with the task of each
/// edge.
pub struct TaskGraph {
    graph: DiGraph<String, u64>,
    tasks: Vec<Arc<Task>>,
}

impl TaskGraph {
    pub closed spec fn spec_graph(&self) -> DiGraph<String, u64> {
        self.graph
    }

    pub closed spec fn spec_tasks(&self) -> Seq<Arc<Task>> {
        self.tasks@
    }

    /// The identifiers of the tasks, by edge.
    pub open spec fn task_ids(&self) -> Seq<TaskIdView> {
        self.spec_tasks().map_values(|t: Arc<Task>| t.spec_id()@)
    }

    /// Every task is ready to run.
    pub open spec fn wf(&self) -> bool {
        forall|i: int| 0 <= i < self.spec_tasks().len() ==> (#[trigger] self.spec_tasks()[i]).wf()
    }

    /// The task graph of a pipeline: the same nodes and edges, and the
    /// `i`-th edge's task is that of the pipeline's `i`-th edge.
    pub fn from(p_graph: &PipelineGraph) -> (r: TaskGraph)
        requires
            p_graph.wf(),
        ensures
            r.wf(),
            graph_nodes(r.spec_graph()) == graph_nodes(p_graph.spec_graph()),
            graph_edges(r.spec_graph()) == graph_edges(p_graph.spec_graph()),
            r.spec_tasks().len() == p_graph.spec_edges().len(),
            forall|i: int|
                0 <= i < r.spec_tasks().len() ==> (#[trigger] r.spec_tasks()[i]).spec_id()@
                    == edge_task_id(p_graph.spec_edges()[i]),
            forall|i: int|
                0 <= i < r.spec_tasks().len() ==> task_of_edge(
                    *#[trigger] r.spec_tasks()[i],
                    p_graph.spec_edges()[i],
                    *p_graph,
                ),
    {
        let t_graph = graph_copy(p_graph.as_petgraph());
        let mut tasks: Vec<Arc<Task>> = Vec::new();
        let n = p_graph.edges.len();
        let mut i: usize = 0;
        while i < n
            invariant
                n == p_graph.edges@.len(),
                p_graph.wf(),
                i <= n,
                tasks@.len() == i,
                forall|k: int| 0 <= k < i ==> (#[trigger] tasks@[k]).wf(),
                forall|k: int|
                    0 <= k < i ==> (#[trigger] tasks@[k]).spec_id()@ == edge_task_id(
                        p_graph.edges@[k],
                    ),
                forall|k: int|
                    0 <= k < i ==> task_of_edge(*#[trigger] tasks@[k], p_graph.edges@[k], *p_graph),
            decreases n - i,
        {
            let task = match &p_graph.edges[i] {
                Edge::Pump(pump) => Task::Pump(PumpTask::new(pump, p_graph)),
                Edge::Source(source) => Task::Source(
                    SourceTask::new(
                        TaskId::from_source_reader(&source.name),
                        p_graph.downstream_tasks_of_stream(&source.dest_stream),
                    ),
                ),
                Edge::Sink(sink) => Task::Sink(SinkTask::new(TaskId::from_sink_writer(&sink.name))),
            };
            tasks.push(Arc::new(task));
            i = i + 1;
        }
        TaskGraph { graph: t_graph, tasks }
    }

    pub fn as_petgraph(&self) -> (r: &DiGraph<String, u64>)
        ensures
            *r == self.spec_graph(),
    {
        &self.graph
    }

    /// The identifiers of all tasks, by edge.
    pub fn all_tasks(&self) -> (r: Vec<TaskId>)
        ensures
            task_ids_view(r@) == self.task_ids(),
    {
        let mut r: Vec<TaskId> = Vec::new();
        let n = self.tasks.len();
        let mut i: usize = 0;
        while i < n
            invariant
                n == self.tasks@.len(),
                i <= n,
                task_ids_view(r@) == self.task_ids().subrange(0, i as int),
            decreases n - i,
        {
            let id = self.tasks[i].id().clone();
            assert(id@ == self.tasks@[i as int].spec_id()@);
            assert(self.task_ids()[i as int] == id@);
            let ghost r0 = r@;
            r.push(id);
            assert(task_ids_view(r@) =~= task_ids_view(r0).push(id@));
            i = i + 1;
            assert(task_ids_view(r@) =~= self.task_ids().subrange(0, i as int));
        }
        assert(self.task_ids().subrange(0, n as int) =~= self.task_ids());
        r
    }

    /// The identifiers of the tasks of the given kind, by edge.
    pub fn tasks_of_kind(&self, kind: TaskKind) -> (r: Vec<TaskId>)
        ensures
            task_ids_view(r@) == self.task_ids().filter(|t: TaskIdView| t.kind == kind),
    {
        let ghost ids = self.task_ids();
        let ghost pred = |t: TaskIdView| t.kind == kind;
        let mut r: Vec<TaskId> = Vec::new();
        let n = self.tasks.len();
        let mut i: usize = 0;
        while i < n
            invariant
                n == self.tasks@.len(),
                ids == self.task_ids(),
                pred == (|t: TaskIdView| t.kind == kind),
                i <= n,
                task_ids_view(r@) == ids.subrange(0, i as int).filter(pred),
            decreases n - i,
        {
            let id = self.tasks[i].id();
            assert(ids[i as int] == id@);
            assert(ids.subrange(0, i + 1).drop_last() =~= ids.subrange(0, i as int));
            reveal_with_fuel(Seq::<_>::filter, 1);
            let ghost r0 = r@;
            if id.kind == kind {
                r.push(id.clone());
                assert(task_ids_view(r@) =~= task_ids_view(r0).push(id@));
            }
            i = i + 1;
        }
        assert(ids.subrange(0, n as int) =~= ids);
        r
    }

    /// The task with identifier `id`, if there is one (the first, by edge).
    pub fn get_task(&self, id: &TaskId) -> (r: Option<Arc<Task>>)
        requires
            self.wf(),
        ensures
            match r {
                Some(t) => t.spec_id()@ == id@ && t.wf() && self.spec_tasks().contains(t),
                None => !self.task_ids().contains(id@),
            },
    {
        let n = self.tasks.len();
        let mut i: usize = 0;
        while i < n
            invariant
                n == self.tasks@.len(),
                self.wf(),
                i <= n,
                forall|k: int| 0 <= k < i ==> self.task_ids()[k] != id@,
            decreases n - i,
        {
            if self.tasks[i].id().same_as(id) {
                assert(self.spec_tasks()[i as int] == self.tasks@[i as int]);
                return Some(Arc::clone(&self.tasks[i]));
            }
            i = i + 1;
        }
        proof {
            if self.task_ids().contains(id@) {
                let k = choose|k: int| 0 <= k < self.task_ids().len() && self.task_ids()[k] == id@;
                assert(self.task_ids()[k] != id@);
            }
        }
        None
    }
}

/// The indices, below `n`, of the edges that leave `node`.
pub open spec fn edges_leaving(es: Seq<(usize, usize, u64)>, node: int, n: int) -> Set<int> {
    Set::new(|i: int| 0 <= i < n && es[i].0 == node)
}

proof fn lemma_tasks_leaving(es: Seq<(usize, usize, u64)>, models: Seq<Edge>, node: int, n: int)
    requires
        0 <= n <= es.len(),
        n <= models.len(),
    ensures
        edges_leaving(es, node, n).finite(),
        tasks_leaving(es, models, node, n).len() == edges_leaving(es, node, n).len(),
        forall|i: int|
            0 <= i < n && es[i].0 == node ==> tasks_leaving(es, models, node, n).contains(
                edge_task_id(#[trigger] models[i]),
            ),
        forall|j: int|
            0 <= j < tasks_leaving(es, models, node, n).len() ==> exists|i: int|
                0 <= i < n && es[i].0 == node && #[trigger] tasks_leaving(es, models, node, n)[j]
                    == edge_task_id(models[i]),
    decreases n,
{
    let d = tasks_leaving(es, models, node, n);
    if n == 0 {
        assert(edges_leaving(es, node, n) =~= Set::<int>::empty());
    } else {
        lemma_tasks_leaving(es, models, node, n - 1);
        let prev = tasks_leaving(es, models, node, n - 1);
        let sp = edges_leaving(es, node, n - 1);
        assert(!sp.contains(n - 1));
        if es[n - 1].0 == node {
            assert(edges_leaving(es, node, n) =~= sp.insert(n - 1));
            assert(d == prev.push(edge_task_id(models[n - 1])));
            assert forall|i: int|
                0 <= i < n && es[i].0 == node implies d.contains(edge_task_id(#[trigger] models[i])) by {
                if i == n - 1 {
                    assert(d[d.len() - 1] == edge_task_id(models[i]));
                } else {
                    assert(prev.contains(edge_task_id(models[i])));
                    let j = choose|j: int| 0 <= j < prev.len() && prev[j] == edge_task_id(models[i]);
                    assert(d[j] == prev[j]);
                }
            }
            assert forall|j: int| 0 <= j < d.len() implies exists|i: int|
                0 <= i < n && es[i].0 == node && #[trigger] d[j] == edge_task_id(models[i]) by {
                if j == d.len() - 1 {
                    assert(d[j] == edge_task_id(models[n - 1]));
                } else {
                    assert(d[j] == prev[j]);
                    let i = choose|i: int|
                        0 <= i < n - 1 && es[i].0 == node && #[trigger] prev[j] == edge_task_id(models[i]);
                    assert(d[j] == edge_task_id(models[i]));
                }
            }
        } else {
            assert(edges_leaving(es, node, n) =~= sp);
            assert(d == prev);
        }
    }
}

/// The tasks downstream of a stream are the tasks on the edges leaving its
/// node: the task of every such edge is among them, each of them is the task
/// of such an edge, and there are as many as there are such edges; a name
/// that is no stream has none.
pub proof fn law_downstream_tasks_are_the_leaving_edges(g: PipelineGraph, name: Seq<char>)
    requires
        g.wf(),
    ensures
        spec_stream_node(g.nodes(), name) is None ==> spec_downstream_tasks(g, name).len() == 0,
        spec_stream_node(g.nodes(), name) matches Some(k) ==> {
            let d = spec_downstream_tasks(g, name);
            let es = graph_edges(g.spec_graph());
            let edges = g.spec_edges();
            &&& forall|i: int|
                0 <= i < edges.len() && es[i].0 == k ==> d.contains(edge_task_id(#[trigger] edges[i]))
            &&& forall|j: int|
                0 <= j < d.len() ==> exists|i: int|
                    0 <= i < edges.len() && es[i].0 == k && #[trigger] d[j] == edge_task_id(edges[i])
            &&& d.len() == edges_leaving(es, k, edges.len() as int).len()
        },
{
    if let Some(k) = spec_stream_node(g.nodes(), name) {
        lemma_tasks_leaving(graph_edges(g.spec_graph()), g.spec_edges(), k, g.spec_edges().len() as int);
    }
}

/// A task graph is uniquely determined by its pipeline: any two task graphs
/// made from the same pipeline graph have the same nodes, the same edges and
/// the same tasks on them.
pub proof fn law_task_graph_unique(p_graph: PipelineGraph, a: TaskGraph, b: TaskGraph)
    requires
        graph_nodes(a.spec_graph()) == graph_nodes(p_graph.spec_graph()),
        graph_edges(a.spec_graph()) == graph_edges(p_graph.spec_graph()),
        a.spec_tasks().len() == p_graph.spec_edges().len(),
        forall|i: int|
            0 <= i < a.spec_tasks().len() ==> (#[trigger] a.spec_tasks()[i]).spec_id()@ == edge_task_id(
                p_graph.spec_edges()[i],
            ),
        graph_nodes(b.spec_graph()) == graph_nodes(p_graph.spec_graph()),
        graph_edges(b.spec_graph()) == graph_edges(p_graph.spec_graph()),
        b.spec_tasks().len() == p_graph.spec_edges().len(),
        forall|i: int|
            0 <= i < b.spec_tasks().len() ==> (#[trigger] b.spec_tasks()[i]).spec_id()@ == edge_task_id(
                p_graph.spec_edges()[i],
            ),
    ensures
        graph_nodes(a.spec_graph()) == graph_nodes(b.spec_graph()),
        graph_edges(a.spec_graph()) == graph_edges(b.spec_graph()),
        a.task_ids() == b.task_ids(),
{
    assert(a.task_ids() =~= b.task_ids());
}

/// What is derived from a pipeline for its execution.
pub struct PipelineDerivatives {
    pub pipeline_version: u64,
    pub task_graph: TaskGraph,
}

impl PipelineDerivatives {
    pub open spec fn wf(&self) -> bool {
        self.task_graph.wf()
    }

    /// The task with identifier `id`, if there is one.
    pub fn get_task(&self, id: &TaskId) -> (r: Option<Arc<Task>>)
        requires
            self.wf(),
        ensures
            match r {
                Some(t) => t.spec_id()@ == id@ && t.wf(),
                None => !self.task_graph.task_ids().contains(id@),
            },
    {
        self.task_graph.get_task(id)
    }
}

/// A pipeline at some version.
#[derive(Debug)]
pub struct Pipeline {
    pub version: u64,
    pub graph: PipelineGraph,
}

/// The pipeline that is being executed, with its derivatives.
pub struct CurrentPipeline {
    pipeline: Pipeline,
    derivatives: Arc<PipelineDerivatives>,
}

impl CurrentPipeline {
    pub closed spec fn spec_pipeline(&self) -> Pipeline {
        self.pipeline
    }

    pub closed spec fn spec_derivatives(&self) -> Arc<PipelineDerivatives> {
        self.derivatives
    }

    pub open spec fn wf(&self) -> bool {
        self.spec_derivatives().wf()
    }

    /// Derives the task graph of a pipeline.
    pub fn new(pipeline: Pipeline) -> (r: CurrentPipeline)
        requires
            pipeline.graph.wf(),
        ensures
            r.wf(),
            r.spec_pipeline() == pipeline,
            r.spec_derivatives().pipeline_version == pipeline.version,
            r.spec_derivatives().task_graph.spec_tasks().len() == pipeline.graph.spec_edges().len(),
    {
        let task_graph = TaskGraph::from(&pipeline.graph);
        let derivatives = Arc::new(PipelineDerivatives { pipeline_version: pipeline.version, task_graph });
        CurrentPipeline { pipeline, derivatives }
    }

    pub fn pipeline(&self) -> (r: &Pipeline)
        ensures
            *r == self.spec_pipeline(),
    {
        &self.pipeline
    }

    pub fn derivatives(&self) -> (r: Arc<PipelineDerivatives>)
        ensures
            r == self.spec_derivatives(),
    {
        Arc::clone(&self.derivatives)
    }
}

} // verus!
