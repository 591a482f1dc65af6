use vstd::prelude::*;

use crate::expr::{expr_type, DataType, Expr, TypeKind, Value};
use crate::pushdown::PushDownInfo;
use crate::relational::JoinType;
use crate::schema::{Field, FieldName};

verus! {

/// The column index of the one column of the one-row table that stands in for
/// a query with no source.
pub const DUMMY_COLUMN_INDEX: usize = usize::MAX;

/// The table index of that one-row table.
pub const DUMMY_TABLE_INDEX: usize = usize::MAX;

#[derive(Clone, Copy, Debug, PartialEq, Eq, Structural)]
pub struct PlanStatsInfo {
    pub estimated_rows: u64,
}

/// How an exchange hands rows to the next fragment.
#[derive(Clone, Copy, Debug, PartialEq, Eq, Structural)]
pub enum FragmentKind {
    Init,
    Normal,
    Expansive,
    Merge,
}

#[derive(Clone, Copy, Debug, PartialEq, Eq, Structural)]
pub struct SortDesc {
    pub asc: bool,
    pub nulls_first: bool,
    pub order_by: usize,
}

#[derive(Debug)]
pub struct AggregateFunctionSignature {
    pub name: String,
    pub args: Vec<DataType>,
    pub params: Vec<Value>,
    pub return_type: DataType,
}

#[derive(Debug)]
pub struct AggregateFunctionDesc {
    pub sig: AggregateFunctionSignature,
    /// The column index the result is stored under.
    pub output_column: usize,
    /// The positions of the arguments in the schema the function reads.
    pub args: Vec<usize>,
    /// The column indices of the arguments.
    pub arg_indices: Vec<usize>,
}

/// What a table read returns: the table's catalog, the storage hints it was
/// asked with, and the fields it delivers.
#[derive(Debug)]
pub struct DataSourcePlan {
    pub catalog: String,
    pub push_downs: Option<PushDownInfo>,
    pub schema: Vec<Field>,
}

/// A node of the physical plan.
#[derive(Debug)]
pub enum PhysicalPlan {
    TableScan {
        plan_id: u32,
        /// The column indices the scan returns.
        name_mapping: Vec<usize>,
        source: Box<DataSourcePlan>,
        table_index: usize,
        stat_info: Option<PlanStatsInfo>,
    },
    HashJoin {
        plan_id: u32,
        build: Box<PhysicalPlan>,
        probe: Box<PhysicalPlan>,
        join_type: JoinType,
        build_keys: Vec<Expr>,
        probe_keys: Vec<Expr>,
        non_equi_conditions: Vec<Expr>,
        marker_index: Option<usize>,
        from_correlated_subquery: bool,
        contain_runtime_filter: bool,
        stat_info: Option<PlanStatsInfo>,
    },
    EvalScalar {
        plan_id: u32,
        input: Box<PhysicalPlan>,
        /// Each expression with the column index its value is stored under.
        exprs: Vec<(Expr, usize)>,
        stat_info: Option<PlanStatsInfo>,
    },
    Unnest {
        plan_id: u32,
        input: Box<PhysicalPlan>,
        /// The positions whose values are exploded into rows.
        offsets: Vec<usize>,
        stat_info: Option<PlanStatsInfo>,
    },
    Filter {
        plan_id: u32,
        input: Box<PhysicalPlan>,
        predicates: Vec<Expr>,
        stat_info: Option<PlanStatsInfo>,
    },
    AggregatePartial {
        plan_id: u32,
        input: Box<PhysicalPlan>,
        group_by: Vec<usize>,
        /// The type of the key emitted for the group-by columns.
        group_by_key_type: DataType,
        agg_funcs: Vec<AggregateFunctionDesc>,
        stat_info: Option<PlanStatsInfo>,
    },
    AggregateFinal {
        plan_id: u32,
        input: Box<PhysicalPlan>,
        group_by: Vec<usize>,
        agg_funcs: Vec<AggregateFunctionDesc>,
        before_group_by_schema: Vec<Field>,
        /// The group-by columns as they stand in `before_group_by_schema`.
        group_fields: Vec<Field>,
        limit: Option<usize>,
        stat_info: Option<PlanStatsInfo>,
    },
    Sort {
        plan_id: u32,
        input: Box<PhysicalPlan>,
        order_by: Vec<SortDesc>,
        limit: Option<usize>,
        stat_info: Option<PlanStatsInfo>,
    },
    Limit {
        plan_id: u32,
        input: Box<PhysicalPlan>,
        limit: Option<usize>,
        offset: usize,
        stat_info: Option<PlanStatsInfo>,
    },
    Exchange { input: Box<PhysicalPlan>, kind: FragmentKind, keys: Vec<Expr> },
    UnionAll {
        plan_id: u32,
        left: Box<PhysicalPlan>,
        right: Box<PhysicalPlan>,
        pairs: Vec<(usize, usize)>,
        schema: Vec<Field>,
        stat_info: Option<PlanStatsInfo>,
    },
    RuntimeFilterSource {
        plan_id: u32,
        left_side: Box<PhysicalPlan>,
        right_side: Box<PhysicalPlan>,
        left_runtime_filters: Vec<(usize, Expr)>,
        right_runtime_filters: Vec<(usize, Expr)>,
    },
}

/// The field an aggregate's partial stage emits for its state.
pub open spec fn state_field(d: AggregateFunctionDesc) -> Field {
    Field { name: FieldName::Column(d.output_column), data_type: DataType { kind: TypeKind::Text, nullable: false } }
}

/// The field an aggregate's final stage emits for its result.
pub open spec fn result_field(d: AggregateFunctionDesc) -> Field {
    Field { name: FieldName::Column(d.output_column), data_type: d.sig.return_type }
}

pub open spec fn eval_field(item: (Expr, usize)) -> Field {
    Field { name: FieldName::Column(item.1), data_type: expr_type(item.0) }
}

/// The fields a node produces, derived from its children and its own
/// expressions.
pub open spec fn schema_of(p: PhysicalPlan) -> Seq<Field>
    decreases p,
{
    match p {
        PhysicalPlan::TableScan { source, .. } => source.schema@,
        PhysicalPlan::HashJoin { build, probe, .. } => schema_of(*probe) + schema_of(*build),
        PhysicalPlan::EvalScalar { input, exprs, .. } => schema_of(*input) + exprs@.map_values(
            |item: (Expr, usize)| eval_field(item),
        ),
        PhysicalPlan::Unnest { input, .. } => schema_of(*input),
        PhysicalPlan::Filter { input, .. } => schema_of(*input),
        PhysicalPlan::AggregatePartial { group_by, group_by_key_type, agg_funcs, .. } => agg_funcs@.map_values(
            |d: AggregateFunctionDesc| state_field(d),
        ) + if group_by@.len() > 0 {
            seq![Field { name: FieldName::GroupByKey, data_type: group_by_key_type }]
        } else {
            Seq::empty()
        },
        PhysicalPlan::AggregateFinal { agg_funcs, group_fields, .. } => group_fields@ + agg_funcs@.map_values(
            |d: AggregateFunctionDesc| result_field(d),
        ),
        PhysicalPlan::Sort { input, .. } => schema_of(*input),
        PhysicalPlan::Limit { input, .. } => schema_of(*input),
        PhysicalPlan::Exchange { input, .. } => schema_of(*input),
        PhysicalPlan::UnionAll { schema, .. } => schema@,
        PhysicalPlan::RuntimeFilterSource { left_side, .. } => schema_of(*left_side),
    }
}

/// `a` followed by the fields of `b`.
pub fn append_fields(a: &mut Vec<Field>, b: &Vec<Field>)
    ensures
        final(a)@ == old(a)@ + b@,
{
    let mut i: usize = 0;
    while i < b.len()
        invariant
            i <= b@.len(),
            a@ == old(a)@ + b@.take(i as int),
        decreases b@.len() - i,
    {
        a.push(b[i]);
        assert(b@.take(i + 1) == b@.take(i as int).push(b@[i as int]));
        i = i + 1;
    }
    assert(b@.take(i as int) == b@);
}

fn copy_fields(b: &Vec<Field>) -> (r: Vec<Field>)
    ensures
        r@ == b@,
{
    let mut r: Vec<Field> = Vec::new();
    append_fields(&mut r, b);
    assert(r@ =~= b@);
    r
}

impl PhysicalPlan {
    /// The fields this node produces.
    pub fn output_schema(&self) -> (r: Vec<Field>)
        ensures
            r@ == schema_of(*self),
        decreases *self,
    {
        match self {
            PhysicalPlan::TableScan { source, .. } => copy_fields(&source.schema),
            PhysicalPlan::HashJoin { build, probe, .. } => {
                let mut r = probe.output_schema();
                let b = build.output_schema();
                append_fields(&mut r, &b);
                r
            },
            PhysicalPlan::EvalScalar { input, exprs, .. } => {
                let mut r = input.output_schema();
                let ghost base = r@;
                let mut i: usize = 0;
                while i < exprs.len()
                    invariant
                        i <= exprs@.len(),
                        r@ == base + exprs@.take(i as int).map_values(|item: (Expr, usize)| eval_field(item)),
                    decreases exprs@.len() - i,
                {
                    let f = Field { name: FieldName::Column(exprs[i].1), data_type: exprs[i].0.data_type() };
                    r.push(f);
                    assert(exprs@.take(i + 1).map_values(|item: (Expr, usize)| eval_field(item))
                        =~= exprs@.take(i as int).map_values(|item: (Expr, usize)| eval_field(item)).push(f));
                    i = i + 1;
                }
                assert(exprs@.take(i as int) == exprs@);
                r
            },
            PhysicalPlan::Unnest { input, .. } => input.output_schema(),
            PhysicalPlan::Filter { input, .. } => input.output_schema(),
            PhysicalPlan::AggregatePartial { group_by, group_by_key_type, agg_funcs, .. } => {
                let mut r: Vec<Field> = Vec::new();
                let mut i: usize = 0;
                while i < agg_funcs.len()
                    invariant
                        i <= agg_funcs@.len(),
                        r@ == agg_funcs@.take(i as int).map_values(|d: AggregateFunctionDesc| state_field(d)),
                    decreases agg_funcs@.len() - i,
                {
                    let f = Field {
                        name: FieldName::Column(agg_funcs[i].output_column),
                        data_type: DataType { kind: TypeKind::Text, nullable: false },
                    };
                    r.push(f);
                    assert(agg_funcs@.take(i + 1).map_values(|d: AggregateFunctionDesc| state_field(d))
                        =~= agg_funcs@.take(i as int).map_values(|d: AggregateFunctionDesc| state_field(d)).push(f));
                    i = i + 1;
                }
                assert(agg_funcs@.take(i as int) == agg_funcs@);
                if group_by.len() > 0 {
                    r.push(Field { name: FieldName::GroupByKey, data_type: *group_by_key_type });
                }
                assert(r@ =~= schema_of(*self));
                r
            },
            PhysicalPlan::AggregateFinal { agg_funcs, group_fields, .. } => {
                let mut r = copy_fields(group_fields);
                let mut i: usize = 0;
                while i < agg_funcs.len()
                    invariant
                        i <= agg_funcs@.len(),
                        r@ == group_fields@ + agg_funcs@.take(i as int).map_values(
                            |d: AggregateFunctionDesc| result_field(d),
                        ),
                    decreases agg_funcs@.len() - i,
                {
                    let f = Field {
                        name: FieldName::Column(agg_funcs[i].output_column),
                        data_type: agg_funcs[i].sig.return_type,
                    };
                    r.push(f);
                    assert(agg_funcs@.take(i + 1).map_values(|d: AggregateFunctionDesc| result_field(d))
                        =~= agg_funcs@.take(i as int).map_values(|d: AggregateFunctionDesc| result_field(d)).push(f));
                    i = i + 1;
                }
                assert(agg_funcs@.take(i as int) == agg_funcs@);
                r
            },
            PhysicalPlan::Sort { input, .. } => input.output_schema(),
            PhysicalPlan::Limit { input, .. } => input.output_schema(),
            PhysicalPlan::Exchange { input, .. } => input.output_schema(),
            PhysicalPlan::UnionAll { schema, .. } => copy_fields(schema),
            PhysicalPlan::RuntimeFilterSource { left_side, .. } => left_side.output_schema(),
        }
    }

    /// The node's kind, for diagnostics.
    pub fn name(&self) -> &'static str {
        match self {
            PhysicalPlan::TableScan { .. } => "TableScan",
            PhysicalPlan::HashJoin { .. } => "HashJoin",
            PhysicalPlan::EvalScalar { .. } => "EvalScalar",
            PhysicalPlan::Unnest { .. } => "Unnest",
            PhysicalPlan::Filter { .. } => "Filter",
            PhysicalPlan::AggregatePartial { .. } => "AggregatePartial",
            PhysicalPlan::AggregateFinal { .. } => "AggregateFinal",
            PhysicalPlan::Sort { .. } => "Sort",
            PhysicalPlan::Limit { .. } => "Limit",
            PhysicalPlan::Exchange { .. } => "Exchange",
            PhysicalPlan::UnionAll { .. } => "UnionAll",
            PhysicalPlan::RuntimeFilterSource { .. } => "RuntimeFilterSource",
        }
    }
}

} // verus!
