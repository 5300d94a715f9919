use std::sync::Arc;

use springql_core::error::{OptionError, SpringError};
use springql_core::event::{
    BlockingEventQueue, Event, EventTag, MemoryState, MemoryStateTransition, PerformanceMetrics,
};
use springql_core::executor::{update_pipeline_event, TaskExecutor};
use springql_core::option::Options;
use springql_core::pipeline::{
    CurrentPipeline, InsertPlan, Pipeline, PipelineGraph, PumpModel, SinkWriterModel,
    SinkWriterType, SourceReaderModel, SourceReaderType, TaskGraph,
};
use springql_core::query::{
    LeafOperation, QueryPlan, QueryPlanNode, QueryPlanNodeLeaf, QueryPlanOperation,
    FinalRow, NewRow, QuerySubtaskNode, QuerySubtaskTree, StreamSubtask, WindowSubtask,
};
use springql_core::repositories::{
    Repositories, SinkWriterFactory, SinkWriterSetup, SourceReaderFactory, SourceReaderSetup,
    Registry, SinkWriterRepository, SourceReaderRepository, SpringSinkWriterConfig,
    SpringSourceReaderConfig,
};
use springql_core::row::{Row, RowQueues, SqlValue};
use springql_core::task::{
    metrics_of_run, InQueueMetricsUpdateByTask, QuerySubtaskOut, Task, TaskContext,
};
use springql_core::task_id::{TaskId, TaskKind};
use springql_core::window_param::{
    AggrExprLabel, AggregateFunctionParameter, AggregateParameter, GroupByLabels, ValueExprLabel,
    WindowOperationParameter,
};
use springql_core::worker::{
    cycle_outcome, is_pump_without_input, pump_without_input_in, CycleOutcome, PumpSinkScheduler, Scheduler,
    SourceScheduler, SourceWorker, SourceWorkerThread, TaskWorkerLoopState, TaskWorkerThreadArg,
    TaskWorkerThreadHandler,
};

fn options(pairs: &[(&str, &str)]) -> Options {
    let mut o = Options::new();
    for (k, v) in pairs {
        o.add(k.to_string(), v.to_string());
    }
    o
}

fn net_options() -> Options {
    options(&[("PROTOCOL", "TCP"), ("REMOTE_HOST", "127.0.0.1"), ("REMOTE_PORT", "54300")])
}

fn collect_plan() -> QueryPlan {
    QueryPlan::new(QueryPlanNode::Leaf(QueryPlanNodeLeaf { op: LeafOperation::Collect }))
}

fn source_config() -> SpringSourceReaderConfig {
    SpringSourceReaderConfig { net_connect_timeout_msec: 1000, net_read_timeout_msec: 100 }
}

fn sink_config() -> SpringSinkWriterConfig {
    SpringSinkWriterConfig { net_connect_timeout_msec: 1000, net_write_timeout_msec: 100 }
}

/// source `src` -> s1 -(pump `p`)-> s2 -> sink `snk`
fn pipeline_graph(source_options: Options, window_param: Option<WindowOperationParameter>) -> PipelineGraph {
    let mut g = PipelineGraph::new();
    let s1 = g.add_stream("s1".to_string());
    let s2 = g.add_stream("s2".to_string());
    g.add_source_reader(
        SourceReaderModel {
            name: "src".to_string(),
            source_reader_type: SourceReaderType::NetServer,
            dest_stream: "s1".to_string(),
            options: source_options,
        },
        s1,
    );
    g.add_pump(
        PumpModel {
            name: "p".to_string(),
            query_plan: collect_plan(),
            window_param,
            insert_plan: InsertPlan { stream: "s2".to_string() },
        },
        s1,
        s2,
    );
    g.add_sink_writer(
        SinkWriterModel {
            name: "snk".to_string(),
            sink_writer_type: SinkWriterType::InMemoryQueue,
            from_stream: "s2".to_string(),
            options: options(&[("NAME", "q")]),
        },
        s2,
    );
    g
}

fn task(kind: TaskKind, name: &str) -> TaskId {
    TaskId { kind, name: name.to_string() }
}

fn row(v: i64) -> Arc<Row> {
    Arc::new(Row { values: vec![SqlValue::BigInt(v), SqlValue::Text("x".to_string())] })
}

#[test]
fn task_graph_has_one_task_per_edge() {
    let g = pipeline_graph(net_options(), None);
    assert_eq!(g.stream_node(&"s2".to_string()), Some(2));
    assert_eq!(g.stream_node(&"none".to_string()), None);
    assert_eq!(g.downstream_tasks_of_stream(&"s1".to_string()), vec![task(TaskKind::Pump, "p")]);
    assert_eq!(g.downstream_tasks_of_stream(&"s2".to_string()), vec![task(TaskKind::Sink, "snk")]);
    assert_eq!(g.all_sources().len(), 1);
    assert_eq!(g.all_sinks()[0].name, "snk");

    let current = CurrentPipeline::new(Pipeline { version: 3, graph: g });
    let derivatives = current.derivatives();
    assert_eq!(derivatives.pipeline_version, 3);
    let tg = &derivatives.task_graph;
    assert_eq!(
        tg.all_tasks(),
        vec![task(TaskKind::Source, "src"), task(TaskKind::Pump, "p"), task(TaskKind::Sink, "snk")]
    );
    assert_eq!(tg.as_petgraph().node_count(), 3);
    assert_eq!(tg.as_petgraph().edge_count(), 3);
    assert!(tg.get_task(&task(TaskKind::Pump, "p")).is_some());
    assert!(tg.get_task(&task(TaskKind::Pump, "q")).is_none());

    let metrics = PerformanceMetrics { executed_tasks: 0, queued_rows: 0 };
    assert_eq!(SourceScheduler.next_task_series(tg, &metrics), vec![task(TaskKind::Source, "src")]);
    assert_eq!(
        PumpSinkScheduler.next_task_series(tg, &metrics),
        vec![task(TaskKind::Pump, "p"), task(TaskKind::Sink, "snk")]
    );
}

#[test]
fn a_row_flows_from_source_to_sink() {
    let current = CurrentPipeline::new(Pipeline { version: 1, graph: pipeline_graph(net_options(), None) });
    let derivatives = current.derivatives();
    let repos = Arc::new(Repositories::new(source_config(), sink_config()));
    let src = task(TaskKind::Source, "src");
    let p = task(TaskKind::Pump, "p");
    let snk = task(TaskKind::Sink, "snk");
    let r = row(7);
    repos.source_reader_repository.feed(&src, r.clone());

    let run = |id: &TaskId| {
        let t = derivatives.get_task(id).unwrap();
        let ctx = TaskContext::new(id.clone(), derivatives.clone(), repos.clone());
        t.run(&ctx).unwrap()
    };

    let m = run(&src);
    assert_eq!(m.task_metrics.task, src);
    assert_eq!(m.out_queues_metrics.len(), 1);
    assert_eq!(m.out_queues_metrics[0].queue, p);

    let m = run(&p);
    assert_eq!(m.in_queues_metrics.len(), 1);
    assert_eq!(m.in_queues_metrics[0].queue, p);
    assert_eq!(m.in_queues_metrics[0].rows_used, 1);
    assert_eq!(m.out_queues_metrics[0].queue, snk);
    assert_eq!(m.out_queues_metrics[0].rows_added, 1);

    // nothing more is waiting for the pump
    let m = run(&p);
    assert!(m.in_queues_metrics.is_empty());
    assert!(m.out_queues_metrics.is_empty());

    let m = run(&snk);
    assert_eq!(m.in_queues_metrics.len(), 1);
    let out = repos.sink_writer_repository.next_output(&snk).unwrap();
    assert!(Arc::ptr_eq(&out, &r));
    assert!(repos.sink_writer_repository.next_output(&snk).is_none());
}

#[test]
fn pump_with_aggregation_has_an_aggregation_window() {
    let param = WindowOperationParameter::GroupAggregation(AggregateParameter {
        aggr_func: AggregateFunctionParameter::Avg,
        aggr_expr: AggrExprLabel(1),
        group_by: GroupByLabels::new(vec![ValueExprLabel(2)]),
    });
    let current = CurrentPipeline::new(Pipeline { version: 1, graph: pipeline_graph(net_options(), Some(param)) });
    let derivatives = current.derivatives();
    let t = derivatives.get_task(&task(TaskKind::Pump, "p")).unwrap();
    match &*t {
        Task::Pump(pump) => {
            assert_eq!(pump.id(), &task(TaskKind::Pump, "p"));
            let (w, handle) = pump.get_aggr_window_mut().unwrap();
            assert_eq!(w.parameter.group_by.as_labels(), &[ValueExprLabel(2)]);
            handle.release_write(w);
            assert!(pump.get_join_window_mut().is_none());
        }
        _ => panic!("not a pump"),
    }
}

#[test]
fn rows_leave_a_queue_in_order() {
    let mut q = RowQueues::new();
    let t = task(TaskKind::Pump, "p");
    let u = task(TaskKind::Sink, "s");
    let (r1, r2, r3) = (row(1), row(2), row(3));
    assert!(q.collect_next(&t).is_none());
    q.push(&t, r1.clone());
    q.emit(&r2, &[t.clone(), u.clone()]);
    q.push(&u, r3.clone());
    assert!(Arc::ptr_eq(&q.collect_next(&t).unwrap(), &r1));
    assert!(Arc::ptr_eq(&q.collect_next(&t).unwrap(), &r2));
    assert!(q.collect_next(&t).is_none());
    assert!(Arc::ptr_eq(&q.collect_next(&u).unwrap(), &r2));
    q.reset(&[t.clone()]);
    assert!(q.collect_next(&u).is_none());
    assert!(q.collect_next(&t).is_none());
}

#[test]
fn factories_read_the_options_of_their_type() {
    let s = SourceReaderFactory::source(&SourceReaderType::NetClient, &net_options(), &source_config()).unwrap();
    assert!(matches!(s, SourceReaderSetup::NetClient { options, .. } if options.remote_port == 54300));
    let e = SourceReaderFactory::source(&SourceReaderType::NetServer, &Options::new(), &source_config());
    assert_eq!(
        e,
        Err(SpringError::InvalidOption {
            key: "PROTOCOL".to_string(),
            value: String::new(),
            cause: OptionError::NotFound
        })
    );
    let w = SinkWriterFactory::sink(&SinkWriterType::InMemoryQueue, &options(&[("NAME", "q")]), &sink_config()).unwrap();
    assert!(matches!(w, SinkWriterSetup::InMemoryQueue { queue } if queue.queue_name == "q"));
    assert!(SinkWriterFactory::sink(&SinkWriterType::Net, &options(&[("NAME", "q")]), &sink_config()).is_err());
}

#[test]
fn update_pipeline_registers_readers_and_writers() {
    let current = Arc::new(CurrentPipeline::new(Pipeline { version: 1, graph: pipeline_graph(net_options(), None) }));
    let executor = TaskExecutor::new(2, current.clone());
    assert_eq!(executor.n_worker_threads(), 2);
    let guard = executor.pipeline_update_lock().expect("no task runs");
    assert_eq!(executor.update_pipeline(&guard, current.clone()), Ok(()));
    // registering again is no change
    assert_eq!(executor.update_pipeline(&guard, current.clone()), Ok(()));
    executor.cleanup(&guard, &current.derivatives().task_graph);
}

#[test]
fn update_pipeline_fails_on_invalid_reader_options() {
    let bad = options(&[("PROTOCOL", "TCP"), ("REMOTE_HOST", "127.0.0.1"), ("REMOTE_PORT", "port")]);
    let current = Arc::new(CurrentPipeline::new(Pipeline { version: 1, graph: pipeline_graph(bad, None) }));
    let executor = TaskExecutor::new(1, current.clone());
    let guard = executor.pipeline_update_lock().expect("no task runs");
    assert_eq!(
        executor.update_pipeline(&guard, current),
        Err(SpringError::InvalidOption {
            key: "REMOTE_PORT".to_string(),
            value: "port".to_string(),
            cause: OptionError::InvalidPort
        })
    );
}

#[test]
fn publishing_to_a_gone_subscriber_fails() {
    let queue = BlockingEventQueue::new();
    let current = CurrentPipeline::new(Pipeline { version: 1, graph: PipelineGraph::new() });
    let poll = queue.subscribe(EventTag::UpdatePipeline);
    assert!(poll.poll().is_none());
    drop(poll);
    let r = queue.publish_blocking(Event::UpdatePipeline { pipeline_derivatives: current.derivatives() });
    assert_eq!(r, Err(SpringError::EventNotDelivered { tag: EventTag::UpdatePipeline }));
    // no subscriber of this tag: nothing to deliver
    let r = queue.publish_blocking(Event::ReplacePerformanceMetrics {
        metrics: Arc::new(PerformanceMetrics { executed_tasks: 1, queued_rows: 2 }),
    });
    assert_eq!(r, Ok(()));
}

#[test]
fn event_tags_follow_variants() {
    let e = Event::TransitMemoryState {
        memory_state_transition: Arc::new(MemoryStateTransition {
            from_state: MemoryState::Moderate,
            to_state: MemoryState::Severe,
        }),
    };
    assert_eq!(EventTag::from(&e), EventTag::TransitMemoryState);
    assert_eq!(EventTag::TransitMemoryState.code(), 4);
}

fn loop_state(current: &CurrentPipeline) -> TaskWorkerLoopState<SourceScheduler> {
    TaskWorkerLoopState {
        pipeline_derivatives: current.derivatives(),
        metrics: Arc::new(PerformanceMetrics { executed_tasks: 0, queued_rows: 0 }),
        scheduler: SourceScheduler,
    }
}

#[test]
fn source_worker_follows_its_events() {
    let empty = CurrentPipeline::new(Pipeline { version: 1, graph: PipelineGraph::new() });
    let full = CurrentPipeline::new(Pipeline { version: 2, graph: pipeline_graph(net_options(), None) });
    let executor = TaskExecutor::new(1, Arc::new(CurrentPipeline::new(Pipeline {
        version: 0,
        graph: PipelineGraph::new(),
    })));
    let arg = TaskWorkerThreadArg::new(executor.task_executor_lock(), executor.repos());
    let queue = executor.event_queue();

    let (state, outcome) = SourceWorkerThread::main_loop_cycle(loop_state(&empty), &arg);
    assert_eq!(outcome, CycleOutcome::NoTask);

    let state = SourceWorkerThread::on_event(
        state,
        Event::UpdatePipeline { pipeline_derivatives: full.derivatives() },
        &arg,
        queue.clone(),
    );
    assert!(Arc::ptr_eq(&state.pipeline_derivatives, &full.derivatives()));
    let (state, outcome) = SourceWorkerThread::main_loop_cycle(state, &arg);
    assert_eq!(outcome, CycleOutcome::Executed);

    let metrics = Arc::new(PerformanceMetrics { executed_tasks: 5, queued_rows: 1 });
    let state = SourceWorkerThread::on_event(
        state,
        Event::ReplacePerformanceMetrics { metrics: metrics.clone() },
        &arg,
        queue.clone(),
    );
    assert!(Arc::ptr_eq(&state.metrics, &metrics));

    // while the pipeline is updated no task runs
    let guard = executor.pipeline_update_lock().expect("no task runs");
    let (_state, outcome) = TaskWorkerThreadHandler::main_loop_cycle(state, &arg);
    assert_eq!(outcome, CycleOutcome::Skipped);
    drop(guard);
}

#[test]
fn source_worker_subscribes_to_its_tags() {
    let queue = BlockingEventQueue::new();
    let executor = TaskExecutor::new(1, Arc::new(CurrentPipeline::new(Pipeline {
        version: 0,
        graph: PipelineGraph::new(),
    })));
    let arg = TaskWorkerThreadArg::new(executor.task_executor_lock(), executor.repos());
    let worker = SourceWorker::new(&queue, arg);
    let (subscriptions, _arg) = worker.into_parts();
    let tags: Vec<EventTag> = subscriptions.iter().map(|(t, _)| *t).collect();
    assert_eq!(tags, SourceWorkerThread::event_subscription());
    assert_eq!(
        tags,
        vec![EventTag::UpdatePipeline, EventTag::ReplacePerformanceMetrics, EventTag::TransitMemoryState]
    );
}

#[test]
fn operations_become_subtasks() {
    match QuerySubtaskNode::from(&QueryPlanOperation::TimeBasedSlidingWindow {
        lower_bound_secs: 5,
        lower_bound_nanos: 250,
    }) {
        QuerySubtaskNode::Window(WindowSubtask::Sliding(w)) => {
            assert_eq!(w.length, chrono::TimeDelta::new(5, 250).unwrap())
        }
        _ => panic!("not a sliding window"),
    }
    match QuerySubtaskNode::from(&QueryPlanOperation::Projection {
        column_names: vec!["a".to_string(), "b".to_string()],
    }) {
        QuerySubtaskNode::Stream(StreamSubtask::Projection(p)) => {
            assert_eq!(p.column_names, vec!["a".to_string(), "b".to_string()])
        }
        _ => panic!("not a projection"),
    }
    assert!(matches!(
        QuerySubtaskNode::from(&QueryPlanOperation::Collect { stream: "s".to_string() }),
        QuerySubtaskNode::Collect(_)
    ));
}

#[test]
fn query_tree_times_out_without_input() {
    let current = CurrentPipeline::new(Pipeline { version: 1, graph: PipelineGraph::new() });
    let repos = Arc::new(Repositories::new(source_config(), sink_config()));
    let p = task(TaskKind::Pump, "p");
    let ctx = TaskContext::new(p.clone(), current.derivatives(), repos.clone());
    let mut tree = QuerySubtaskTree::compile(collect_plan());
    assert_eq!(tree.run(&ctx), Err(SpringError::InputTimeout { task: p.clone() }));
    let r = row(9);
    repos.row_repository.emit(&r, &[p.clone()]);
    match tree.run(&ctx) {
        Ok(springql_core::query::FinalRow::Preserved(got)) => assert!(Arc::ptr_eq(&got, &r)),
        _ => panic!("expected the input row"),
    }
}

#[test]
fn task_graph_is_determined_by_its_pipeline() {
    let g = pipeline_graph(net_options(), None);
    let a = TaskGraph::from(&g);
    let b = TaskGraph::from(&g);
    assert_eq!(a.all_tasks(), b.all_tasks());
    let ea: Vec<(usize, usize)> = a
        .as_petgraph()
        .raw_edges()
        .iter()
        .map(|e| (e.source().index(), e.target().index()))
        .collect();
    let eb: Vec<(usize, usize)> = b
        .as_petgraph()
        .raw_edges()
        .iter()
        .map(|e| (e.source().index(), e.target().index()))
        .collect();
    assert_eq!(ea, eb);
    assert_eq!(ea, vec![(0, 1), (1, 2), (2, 0)]);
    assert_eq!(a.as_petgraph()[petgraph::graph::NodeIndex::new(2)], "s2".to_string());
}

#[test]
fn a_subscription_keeps_its_tag() {
    let queue = BlockingEventQueue::new();
    let poll = queue.subscribe(EventTag::TransitMemoryState);
    assert_eq!(poll.tag(), EventTag::TransitMemoryState);
}

#[test]
fn cycle_outcome_follows_the_series() {
    assert_eq!(cycle_outcome(0, false), CycleOutcome::NoTask);
    assert_eq!(cycle_outcome(0, true), CycleOutcome::NoTask);
    assert_eq!(cycle_outcome(3, false), CycleOutcome::Executed);
    assert_eq!(cycle_outcome(1, true), CycleOutcome::ExecutedWithoutInput);
}

#[test]
fn final_row_prefers_a_made_row() {
    let r = row(1);
    assert_eq!(QuerySubtaskTree::final_row(Ok(r.clone()), None), Ok(FinalRow::Preserved(r.clone())));
    let made = Row { values: vec![SqlValue::BigInt(2)] };
    let made2 = Row { values: vec![SqlValue::BigInt(2)] };
    assert_eq!(
        QuerySubtaskTree::final_row(Ok(r.clone()), Some(NewRow { row: made2 })),
        Ok(FinalRow::NewlyCreated(made))
    );
    let e = SpringError::InputTimeout { task: task(TaskKind::Pump, "p") };
    assert_eq!(
        QuerySubtaskTree::final_row(Err(SpringError::InputTimeout { task: task(TaskKind::Pump, "p") }), None),
        Err(e)
    );
}

#[test]
fn runs_report_what_their_tasks_moved() {
    let current = CurrentPipeline::new(Pipeline { version: 1, graph: pipeline_graph(net_options(), None) });
    let derivatives = current.derivatives();
    let repos = Arc::new(Repositories::new(source_config(), sink_config()));
    let p = task(TaskKind::Pump, "p");
    let snk = task(TaskKind::Sink, "snk");
    let ctx = TaskContext::new(p.clone(), derivatives.clone(), repos.clone());
    let pump = derivatives.get_task(&p).unwrap();
    match &*pump {
        Task::Pump(pump) => {
            let (in_m, outs) = pump.insert_query_output(None, &ctx);
            assert!(in_m.is_none());
            assert!(outs.is_empty());
            let used = InQueueMetricsUpdateByTask { queue: p.clone(), rows_used: 1 };
            let (in_m, outs) = pump.insert_query_output(
                Some(QuerySubtaskOut { values_seq: row(5), in_queue_metrics_update: used }),
                &ctx,
            );
            assert_eq!(in_m, Some(InQueueMetricsUpdateByTask { queue: p.clone(), rows_used: 1 }));
            assert_eq!(outs.len(), 1);
            assert_eq!(outs[0].queue, snk);
            // the row went to the sink's queue
            assert!(repos.row_repository.collect_next(&snk).is_some());
        }
        _ => panic!("the pump edge has a pump task"),
    }
    let m = metrics_of_run(&p, std::time::Duration::from_millis(3), None, Vec::new());
    assert_eq!(m.task_metrics.task, p);
    assert!(m.in_queues_metrics.is_empty());
    assert!(is_pump_without_input(TaskKind::Pump, &m));
    assert!(!is_pump_without_input(TaskKind::Sink, &m));
    let m = metrics_of_run(
        &p,
        std::time::Duration::from_millis(3),
        Some(InQueueMetricsUpdateByTask { queue: p.clone(), rows_used: 1 }),
        Vec::new(),
    );
    assert_eq!(m.in_queues_metrics.len(), 1);
    assert!(!is_pump_without_input(TaskKind::Pump, &m));
}

#[test]
fn cleanup_finishes_waiting_rows() {
    let current = Arc::new(CurrentPipeline::new(Pipeline { version: 1, graph: pipeline_graph(net_options(), None) }));
    let executor = TaskExecutor::new(1, current.clone());
    let guard = executor.pipeline_update_lock().expect("no task runs");
    assert_eq!(executor.update_pipeline(&guard, current.clone()), Ok(()));
    let repos = executor.repos();
    let p = task(TaskKind::Pump, "p");
    let snk = task(TaskKind::Sink, "snk");
    let r = row(9);
    repos.row_repository.emit(&r, &[p.clone()]);
    executor.cleanup(&guard, &current.derivatives().task_graph);
    // the row went through the pump and the sink to the writer
    let out = repos.sink_writer_repository.next_output(&snk).unwrap();
    assert!(Arc::ptr_eq(&out, &r));
    assert!(repos.row_repository.collect_next(&p).is_none());
    assert!(repos.row_repository.collect_next(&snk).is_none());
}

#[test]
fn registering_keeps_the_first_setup_of_a_name() {
    let mut readers = Registry::new();
    let model = |opts: Options| SourceReaderModel {
        name: "src".to_string(),
        source_reader_type: SourceReaderType::NetClient,
        dest_stream: "s1".to_string(),
        options: opts,
    };
    let bad = options(&[("PROTOCOL", "UDP")]);
    assert_eq!(
        SourceReaderRepository::register_in(&mut readers, &model(bad), &source_config()),
        Err(SpringError::InvalidOption {
            key: "PROTOCOL".to_string(),
            value: "UDP".to_string(),
            cause: OptionError::UnsupportedProtocol
        })
    );
    assert!(!readers.contains(&"src".to_string()));
    assert_eq!(SourceReaderRepository::register_in(&mut readers, &model(net_options()), &source_config()), Ok(()));
    assert!(readers.contains(&"src".to_string()));
    // the name is registered: invalid options of a later model change nothing
    let bad = options(&[("PROTOCOL", "UDP")]);
    assert_eq!(SourceReaderRepository::register_in(&mut readers, &model(bad), &source_config()), Ok(()));

    let mut writers = Registry::new();
    let sink = SinkWriterModel {
        name: "snk".to_string(),
        sink_writer_type: SinkWriterType::InMemoryQueue,
        from_stream: "s2".to_string(),
        options: Options::new(),
    };
    assert!(SinkWriterRepository::register_in(&mut writers, &sink, &sink_config()).is_err());
    assert!(!writers.contains(&"snk".to_string()));
}

#[test]
fn a_pipeline_update_announces_the_new_pipeline() {
    let current = CurrentPipeline::new(Pipeline { version: 4, graph: PipelineGraph::new() });
    match update_pipeline_event(&current) {
        Event::UpdatePipeline { pipeline_derivatives } => {
            assert!(Arc::ptr_eq(&pipeline_derivatives, &current.derivatives()));
            assert_eq!(pipeline_derivatives.pipeline_version, 4);
        }
        _ => panic!("an update event"),
    }
    let executor = TaskExecutor::new(1, Arc::new(current));
    assert!(Arc::ptr_eq(&executor.repos(), &executor.repos()));
    assert!(Arc::ptr_eq(&executor.event_queue(), &executor.event_queue()));
}

#[test]
fn a_cycle_with_the_lock_runs_the_chosen_series() {
    let full = CurrentPipeline::new(Pipeline { version: 2, graph: pipeline_graph(net_options(), None) });
    let executor = TaskExecutor::new(1, Arc::new(CurrentPipeline::new(Pipeline {
        version: 0,
        graph: PipelineGraph::new(),
    })));
    let arg = TaskWorkerThreadArg::new(executor.task_executor_lock(), executor.repos());
    let pump_sink = TaskWorkerLoopState {
        pipeline_derivatives: full.derivatives(),
        metrics: Arc::new(PerformanceMetrics { executed_tasks: 0, queued_rows: 0 }),
        scheduler: PumpSinkScheduler,
    };
    // the pump finds no input row
    assert_eq!(TaskWorkerThreadHandler::run_cycle(&pump_sink, &arg), CycleOutcome::ExecutedWithoutInput);
    let p = task(TaskKind::Pump, "p");
    let snk = task(TaskKind::Sink, "snk");
    let runs = TaskWorkerThreadHandler::execute_task_series(&[p.clone(), snk.clone()], &pump_sink, &arg);
    assert_eq!(runs.len(), 2);
    assert_eq!(runs[0].task_metrics.task, p);
    assert_eq!(runs[1].task_metrics.task, snk);
    assert!(pump_without_input_in(&runs));
    executor.repos().row_repository.emit(&row(1), &[p.clone()]);
    let runs = TaskWorkerThreadHandler::execute_task_series(&[p.clone()], &pump_sink, &arg);
    assert!(!pump_without_input_in(&runs));
    let empty = CurrentPipeline::new(Pipeline { version: 1, graph: PipelineGraph::new() });
    assert_eq!(TaskWorkerThreadHandler::run_cycle(&loop_state(&empty), &arg), CycleOutcome::NoTask);

    let state = TaskWorkerThreadHandler::follow_pipeline_updates(
        loop_state(&empty),
        Event::UpdatePipeline { pipeline_derivatives: full.derivatives() },
    );
    assert!(Arc::ptr_eq(&state.pipeline_derivatives, &full.derivatives()));
    let metrics = Arc::new(PerformanceMetrics { executed_tasks: 1, queued_rows: 1 });
    let state2 = TaskWorkerThreadHandler::follow_pipeline_updates(
        state,
        Event::ReplacePerformanceMetrics { metrics },
    );
    assert_eq!(state2.metrics.executed_tasks, 0);
}

#[test]
fn a_received_line_is_a_one_column_row() {
    assert_eq!(Row::from_line("hello".to_string()), Row { values: vec![SqlValue::Text("hello".to_string())] });
}

#[test]
fn no_group_by_has_no_labels() {
    assert!(GroupByLabels::default().as_labels().is_empty());
}
