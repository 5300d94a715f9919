//! Parameters of window operations: group aggregation and join.
use vstd::prelude::*;

verus! {

/// Label of a value expression of a query.
#[derive(Debug, Clone, Copy, PartialEq, Eq, Structural)]
pub struct ValueExprLabel(pub u16);

/// Label of an aggregate expression of a query.
#[derive(Debug, Clone, Copy, PartialEq, Eq, Structural)]
pub struct AggrExprLabel(pub u16);

/// `[GROUP BY c1, c2, c3...]`: empty when there is no GROUP BY clause.
#[derive(Debug, PartialEq, Eq)]
pub struct GroupByLabels(Vec<ValueExprLabel>);

impl GroupByLabels {
    pub fn new(labels: Vec<ValueExprLabel>) -> (r: GroupByLabels)
        ensures
            r.labels() == labels@,
    {
        GroupByLabels(labels)
    }

    /// The labels, in the order of the GROUP BY clause.
    pub closed spec fn labels(&self) -> Seq<ValueExprLabel> {
        self.0@
    }

    pub fn as_labels(&self) -> (r: &[ValueExprLabel])
        ensures
            r@ == self.labels(),
    {
        self.0.as_slice()
    }
}

impl Default for GroupByLabels {
    /// No GROUP BY clause: no labels.
    fn default() -> (r: GroupByLabels)
        ensures
            r.labels() == Seq::<ValueExprLabel>::empty(),
    {
        GroupByLabels(Vec::new())
    }
}

/// Aggregate functions.
#[derive(Debug, Clone, Copy, PartialEq, Eq, Structural)]
pub enum AggregateFunctionParameter {
    Avg,
}

/// `SELECT group_by, aggr_func(aggr_expr) FROM s [GROUP BY group_by] ... WINDOW`.
#[derive(Debug, PartialEq, Eq)]
pub struct AggregateParameter {
    pub aggr_func: AggregateFunctionParameter,
    pub aggr_expr: AggrExprLabel,
    pub group_by: GroupByLabels,
}

/// Kinds of join.
#[derive(Debug, Clone, Copy, PartialEq, Eq, Structural)]
pub enum JoinType {
    LeftOuter,
}

/// `... JOIN ... ON on_expr`.
#[derive(Debug, PartialEq, Eq)]
pub struct JoinParameter {
    pub join_type: JoinType,
    pub on_expr: ValueExprLabel,
}

/// Window operation parameters.
#[derive(Debug, PartialEq, Eq)]
pub enum WindowOperationParameter {
    GroupAggregation(AggregateParameter),
    Join(JoinParameter),
}

} // verus!
