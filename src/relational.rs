use vstd::prelude::*;

use crate::scalar::ScalarExpr;

verus! {

/// A scalar computed by an operator, stored under column index `index`.
#[derive(Debug)]
pub struct ScalarItem {
    pub scalar: ScalarExpr,
    pub index: usize,
}

#[derive(Clone, Copy, Debug, PartialEq, Eq, Structural)]
pub struct SortItem {
    pub index: usize,
    pub asc: bool,
    pub nulls_first: bool,
}

/// A split of a scan's columns for a storage-level predicate evaluated before
/// the other columns are read.
#[derive(Debug)]
pub struct Prewhere {
    /// The columns the scan still returns.
    pub output_columns: Vec<usize>,
    /// The columns the predicate reads.
    pub prewhere_columns: Vec<usize>,
    pub predicates: Vec<ScalarExpr>,
}

#[derive(Debug)]
pub struct Scan {
    pub table_index: usize,
    /// The column indices the scan is asked for, each once.
    pub columns: Vec<usize>,
    pub push_down_predicates: Option<Vec<ScalarExpr>>,
    pub limit: Option<usize>,
    pub order_by: Option<Vec<SortItem>>,
    pub prewhere: Option<Prewhere>,
}

#[derive(Clone, Copy, Debug, PartialEq, Eq, Structural)]
pub enum JoinType {
    Inner,
    Left,
    Right,
    Full,
    LeftSemi,
    LeftAnti,
    RightSemi,
    RightAnti,
    LeftMark,
    RightMark,
    Cross,
}

#[derive(Debug)]
pub struct Join {
    /// Equi-join keys over the probe side (child 0).
    pub left_conditions: Vec<ScalarExpr>,
    /// Equi-join keys over the build side (child 1).
    pub right_conditions: Vec<ScalarExpr>,
    pub non_equi_conditions: Vec<ScalarExpr>,
    pub join_type: JoinType,
    pub marker_index: Option<usize>,
    pub from_correlated_subquery: bool,
    pub contain_runtime_filter: bool,
}

#[derive(Clone, Copy, Debug, PartialEq, Eq, Structural)]
pub enum AggregateMode {
    Partial,
    Final,
    Initial,
}

#[derive(Debug)]
pub struct Aggregate {
    pub mode: AggregateMode,
    pub group_items: Vec<ScalarItem>,
    pub aggregate_functions: Vec<ScalarItem>,
    pub limit: Option<usize>,
}

/// How an exchange redistributes rows.
#[derive(Debug)]
pub enum Exchange {
    Random,
    Hash(Vec<ScalarExpr>),
    Broadcast,
    Merge,
}

/// A relational operator with its children; the children's number and roles
/// are fixed by the kind.
#[derive(Debug)]
pub enum RelOperator {
    Scan(Scan),
    DummyTableScan,
    /// Children: the probe side, then the build side.
    Join(Join, Box<SExpr>, Box<SExpr>),
    EvalScalar(Vec<ScalarItem>, Box<SExpr>),
    Filter(Vec<ScalarExpr>, Box<SExpr>),
    Aggregate(Aggregate, Box<SExpr>),
    Sort(Vec<SortItem>, Option<usize>, Box<SExpr>),
    /// The limit, the offset and the child.
    Limit(Option<usize>, usize, Box<SExpr>),
    Exchange(Exchange, Box<SExpr>),
    /// (left, right) column pairs, then the two children.
    UnionAll(Vec<(usize, usize)>, Box<SExpr>, Box<SExpr>),
    /// Filter ids with their expressions over each child, then the children.
    RuntimeFilterSource(Vec<(usize, ScalarExpr)>, Vec<(usize, ScalarExpr)>, Box<SExpr>, Box<SExpr>),
    /// An operator with no physical form, by its debug form.
    Other(String),
}

/// A node of the optimized relational tree, with the cardinality that the
/// optimizer derived for it.
#[derive(Debug)]
pub struct SExpr {
    pub plan: RelOperator,
    pub cardinality: u64,
}

} // verus!
