//! Identifiers of tasks: a source reader, a pump or a sink writer, by name.
use vstd::prelude::*;

verus! {

/// The kind of a task.
#[derive(Debug, Clone, Copy, PartialEq, Eq, Structural)]
pub enum TaskKind {
    Source,
    Pump,
    Sink,
}

/// The view of a task identifier.
pub struct TaskIdView {
    pub kind: TaskKind,
    pub name: Seq<char>,
}

/// Identifies a task of the task graph.
#[derive(Debug, PartialEq, Eq)]
pub struct TaskId {
    pub kind: TaskKind,
    pub name: String,
}

impl View for TaskId {
    type V = TaskIdView;

    open spec fn view(&self) -> TaskIdView {
        TaskIdView { kind: self.kind, name: self.name@ }
    }
}

impl Clone for TaskId {
    fn clone(&self) -> (r: Self)
        ensures
            r == *self,
    {
        TaskId { kind: self.kind, name: self.name.clone() }
    }
}

impl TaskId {
    /// The task of a source reader.
    pub fn from_source_reader(name: &String) -> (r: TaskId)
        ensures
            r@ == (TaskIdView { kind: TaskKind::Source, name: name@ }),
    {
        TaskId { kind: TaskKind::Source, name: name.clone() }
    }

    /// The task of a pump.
    pub fn from_pump(name: &String) -> (r: TaskId)
        ensures
            r@ == (TaskIdView { kind: TaskKind::Pump, name: name@ }),
    {
        TaskId { kind: TaskKind::Pump, name: name.clone() }
    }

    /// The task of a sink writer.
    pub fn from_sink_writer(name: &String) -> (r: TaskId)
        ensures
            r@ == (TaskIdView { kind: TaskKind::Sink, name: name@ }),
    {
        TaskId { kind: TaskKind::Sink, name: name.clone() }
    }

    /// Whether two identifiers denote the same task.
    pub fn same_as(&self, other: &TaskId) -> (r: bool)
        ensures
            r == (self@ == other@),
    {
        self.kind == other.kind && self.name == other.name
    }
}

} // verus!
