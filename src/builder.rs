use vstd::prelude::*;

use crate::aggregate::{
    agg_error, build_agg_funcs, choose_group_by_key_type, group_columns, group_fields_of, hash_key_type,
    is_desc_of, resolve_group_fields,
};
use crate::error::BuildError;
use crate::expr::{expr_type, DataType, Expr, TypeKind};
use crate::lists::{
    eval_item, eval_items, filter_predicate, item_scalar, filter_predicates, keyed_rebound, rebind_fold_all,
    rebind_keyed, rebound_folded, unnest_positions,
};
use crate::metadata::{entry_path, entry_type, Metadata, TableField};
use crate::plan::{
    eval_field, schema_of, AggregateFunctionDesc, DataSourcePlan, FragmentKind, PhysicalPlan, PlanStatsInfo,
    SortDesc, DUMMY_COLUMN_INDEX, DUMMY_TABLE_INDEX,
};
use crate::projection::{
    copy_indices, lemma_sorted_pairs_from_columns, lemma_sorted_pairs_unique, pair_columns,
    sorted_column_positions, sorted_pairs_of,
};
use crate::pushdown::{contains_index, filter_ok, is_push_down_of, order_ok, prewhere_ok, projection_ok, push_downs};
use crate::relational::{Aggregate, AggregateMode, Exchange, RelOperator, SExpr, Scan, ScalarItem, SortItem};
use crate::scalar::{scalar_type, ScalarExpr};
use crate::schema::{index_of, position_of, Field, FieldName};

verus! {

/// Builds physical plans out of optimized relational trees, numbering the
/// nodes it makes in the order it makes them.
pub struct PhysicalPlanBuilder {
    pub metadata: Metadata,
    pub next_plan_id: u32,
}

pub open spec fn stat_of(s: SExpr) -> PlanStatsInfo {
    PlanStatsInfo { estimated_rows: s.cardinality }
}

pub open spec fn has_unnest(items: Seq<ScalarItem>) -> bool {
    exists|k: int| 0 <= k < items.len() && items[k].scalar is Unnest
}

/// How many plan ids building the tree draws.
pub open spec fn id_count(s: SExpr) -> nat
    decreases s,
{
    match s.plan {
        RelOperator::Scan(_) => 1,
        RelOperator::DummyTableScan => 1,
        RelOperator::Join(_, probe, build) => 1 + id_count(*probe) + id_count(*build),
        RelOperator::EvalScalar(items, c) => 1 + (if has_unnest(items@) { 1nat } else { 0nat }) + id_count(*c),
        RelOperator::Filter(_, c) => 1 + id_count(*c),
        RelOperator::Aggregate(_, c) => 1 + id_count(*c),
        RelOperator::Sort(_, _, c) => 1 + id_count(*c),
        RelOperator::Limit(_, _, c) => 1 + id_count(*c),
        RelOperator::Exchange(_, c) => id_count(*c),
        RelOperator::UnionAll(_, l, r) => 1 + id_count(*l) + id_count(*r),
        RelOperator::RuntimeFilterSource(_, _, l, r) => 1 + id_count(*l) + id_count(*r),
        RelOperator::Other(_) => 0,
    }
}

/// `v` is `f` applied to each element of `s`, each application succeeding.
pub open spec fn mapped_list<A, B>(v: Seq<B>, s: Seq<A>, f: spec_fn(A) -> Result<B, BuildError>) -> bool {
    &&& v.len() == s.len()
    &&& forall|k: int| 0 <= k < s.len() ==> f(s[k]) == Ok::<B, BuildError>(v[k])
}

/// The columns of `s` that `t` holds, in the order of `s`.
pub open spec fn within(s: Seq<usize>, t: Seq<usize>) -> Seq<usize>
    decreases s.len(),
{
    if s.len() == 0 {
        Seq::empty()
    } else {
        let r = within(s.drop_last(), t);
        if t.contains(s.last()) {
            r.push(s.last())
        } else {
            r
        }
    }
}

/// The columns a scan returns: with a prewhere split, only its output columns.
pub open spec fn returned_columns(scan: Scan, order: Seq<usize>) -> Seq<usize> {
    match scan.prewhere {
        Some(pw) => within(order, pw.output_columns@),
        None => order,
    }
}

pub open spec fn scan_has_inner(meta: Metadata, scan: Scan) -> bool {
    exists|k: int|
        0 <= k < scan.columns@.len() && scan.columns@[k] < meta.columns@.len() && entry_path(
            meta.columns@[scan.columns@[k] as int],
        ) is Some
}

pub open spec fn column_field(meta: Metadata, index: usize) -> Field {
    Field { name: FieldName::Column(index), data_type: entry_type(meta.columns@[index as int]) }
}

pub open spec fn table_schema(meta: Metadata, scan: Scan) -> Seq<TableField> {
    meta.tables@[scan.table_index as int].schema@
}

/// The order in which a scan's source delivers columns: by table position for
/// top-level columns, else in the order the columns were asked for.
pub open spec fn scan_order(meta: Metadata, scan: Scan) -> Seq<usize> {
    if scan_has_inner(meta, scan) {
        scan.columns@
    } else {
        sorted_pairs_of(meta, table_schema(meta, scan), scan.columns@).map_values(|q: (usize, usize)| q.1)
    }
}

/// The fields a scan delivers.
pub open spec fn scan_schema(meta: Metadata, scan: Scan) -> Seq<Field> {
    returned_columns(scan, scan_order(meta, scan)).map_values(|i: usize| column_field(meta, i))
}

/// When a scan can be built: its columns and table are known and its storage
/// hints can be assembled.
pub open spec fn scan_ok(meta: Metadata, scan: Scan) -> bool {
    &&& scan.table_index < meta.tables@.len()
    &&& forall|k: int| 0 <= k < scan.columns@.len() ==> scan.columns@[k] < meta.columns@.len()
    &&& projection_ok(meta, table_schema(meta, scan), scan.columns@, scan_has_inner(meta, scan))
    &&& filter_ok(scan)
    &&& prewhere_ok(meta, table_schema(meta, scan), scan, scan_has_inner(meta, scan))
    &&& order_ok(meta, scan)
}

pub open spec fn scan_built(meta: Metadata, scan: Scan, p: PhysicalPlan, start: int, stat: Option<PlanStatsInfo>) -> bool {
    p matches PhysicalPlan::TableScan { plan_id, name_mapping, source, table_index, stat_info } && {
        &&& plan_id == start
        &&& table_index == scan.table_index
        &&& stat_info == stat
        &&& scan.table_index < meta.tables@.len()
        &&& forall|k: int| 0 <= k < scan.columns@.len() ==> scan.columns@[k] < meta.columns@.len()
        &&& name_mapping@ == returned_columns(scan, scan.columns@)
        &&& source.catalog@ == meta.tables@[scan.table_index as int].catalog@
        &&& source.push_downs matches Some(pd) && is_push_down_of(
            pd,
            meta,
            meta.tables@[scan.table_index as int].schema@,
            scan,
            scan_has_inner(meta, scan),
        )
        &&& source.schema@ == scan_schema(meta, scan)
    }
}

pub open spec fn dummy_field() -> Field {
    Field { name: FieldName::Column(DUMMY_COLUMN_INDEX), data_type: DataType { kind: TypeKind::Int, nullable: false } }
}

pub open spec fn dummy_built(p: PhysicalPlan, start: int) -> bool {
    p matches PhysicalPlan::TableScan { plan_id, name_mapping, source, table_index, stat_info } && {
        &&& plan_id == start
        &&& table_index == DUMMY_TABLE_INDEX
        &&& stat_info == Some(PlanStatsInfo { estimated_rows: 1 })
        &&& name_mapping@ == seq![DUMMY_COLUMN_INDEX]
        &&& source.push_downs is None
        &&& source.schema@ == seq![dummy_field()]
    }
}

/// The partial stage of `agg` over an input with schema `input_schema`.
pub open spec fn partial_built(
    agg: Aggregate,
    p: PhysicalPlan,
    input_schema: Seq<Field>,
    id: int,
    stat: Option<PlanStatsInfo>,
) -> bool {
    p matches PhysicalPlan::AggregatePartial { plan_id, group_by, group_by_key_type, agg_funcs, stat_info, .. } && {
        &&& plan_id == id
        &&& stat_info == stat
        &&& group_by@ == agg.group_items@.map_values(|i: ScalarItem| i.index)
        &&& group_by_key_type == hash_key_type(agg.group_items@.map_values(|i: ScalarItem| scalar_type(i.scalar)))
        &&& agg_funcs@.len() == agg.aggregate_functions@.len()
        &&& forall|k: int|
            0 <= k < agg_funcs@.len() ==> is_desc_of(agg_funcs@[k], agg.aggregate_functions@[k], input_schema)
    }
}

/// The schema under the partial stage that a final stage's input holds.
pub open spec fn before_group_by(p: PhysicalPlan) -> Option<Seq<Field>> {
    match p {
        PhysicalPlan::AggregatePartial { input, .. } => Some(schema_of(*input)),
        PhysicalPlan::Exchange { input, .. } => match *input {
            PhysicalPlan::AggregatePartial { input, .. } => Some(schema_of(*input)),
            _ => None,
        },
        _ => None,
    }
}

pub open spec fn fragment_kind(ex: Exchange) -> FragmentKind {
    match ex {
        Exchange::Random => FragmentKind::Init,
        Exchange::Hash(_) => FragmentKind::Normal,
        Exchange::Broadcast => FragmentKind::Expansive,
        Exchange::Merge => FragmentKind::Merge,
    }
}

pub open spec fn sort_desc(i: SortItem) -> SortDesc {
    SortDesc { asc: i.asc, nulls_first: i.nulls_first, order_by: i.index }
}

pub open spec fn unnest_input(p: PhysicalPlan) -> PhysicalPlan {
    match p {
        PhysicalPlan::Unnest { input, .. } => *input,
        _ => p,
    }
}

/// The first field of `schema` that carries column `index`.
pub open spec fn field_named(schema: Seq<Field>, index: usize) -> Option<Field> {
    match position_of(schema, FieldName::Column(index)) {
        Some(q) => Some(schema[q]),
        None => None,
    }
}

pub open spec fn min(a: int, b: int) -> int {
    if a <= b {
        a
    } else {
        b
    }
}

/// `p` is the physical plan built from `s` with the registry `meta`, its plan
/// ids drawn from `start` on.
pub open spec fn built_from(meta: Metadata, s: SExpr, p: PhysicalPlan, start: int) -> bool
    decreases s,
{
    let stat = Some(stat_of(s));
    match s.plan {
        RelOperator::Scan(scan) => scan_built(meta, scan, p, start, stat),
        RelOperator::DummyTableScan => dummy_built(p, start),
        RelOperator::Join(j, ps, bs) => p matches PhysicalPlan::HashJoin {
            plan_id,
            build,
            probe,
            join_type,
            build_keys,
            probe_keys,
            non_equi_conditions,
            marker_index,
            from_correlated_subquery,
            contain_runtime_filter,
            stat_info,
        } && {
            &&& built_from(meta, *bs, *build, start)
            &&& built_from(meta, *ps, *probe, start + id_count(*bs))
            &&& plan_id == start + id_count(*bs) + id_count(*ps)
            &&& join_type == j.join_type
            &&& marker_index == j.marker_index
            &&& from_correlated_subquery == j.from_correlated_subquery
            &&& contain_runtime_filter == j.contain_runtime_filter
            &&& stat_info == stat
            &&& mapped_list(build_keys@, j.right_conditions@, |c: ScalarExpr| rebound_folded(c, schema_of(*build)))
            &&& mapped_list(probe_keys@, j.left_conditions@, |c: ScalarExpr| rebound_folded(c, schema_of(*probe)))
            &&& mapped_list(
                non_equi_conditions@,
                j.non_equi_conditions@,
                |c: ScalarExpr| rebound_folded(c, schema_of(*probe) + schema_of(*build)),
            )
        },
        RelOperator::EvalScalar(items, c) => {
            &&& unnest_input(p) matches PhysicalPlan::EvalScalar { plan_id, input, exprs, stat_info } && {
                &&& built_from(meta, *c, *input, start)
                &&& plan_id == start + id_count(*c)
                &&& stat_info == stat
                &&& mapped_list(exprs@, items@, |i: ScalarItem| eval_item(i, schema_of(*input)))
                &&& has_unnest(items@) ==> (p matches PhysicalPlan::Unnest { plan_id: uid, offsets, stat_info: us, .. }
                    && uid == start + id_count(*c) + 1 && us == stat && offsets@ == unnest_positions(
                    items@,
                    schema_of(*input).len() as int,
                ))
            }
            &&& !has_unnest(items@) ==> p is EvalScalar
        },
        RelOperator::Filter(preds, c) => p matches PhysicalPlan::Filter { plan_id, input, predicates, stat_info } && {
            &&& built_from(meta, *c, *input, start)
            &&& plan_id == start + id_count(*c)
            &&& stat_info == stat
            &&& mapped_list(predicates@, preds@, |e: ScalarExpr| filter_predicate(e, schema_of(*input)))
        },
        RelOperator::Aggregate(agg, c) => match agg.mode {
            AggregateMode::Partial => {
                ||| (p matches PhysicalPlan::Exchange { input: pin, kind, keys } && *pin matches PhysicalPlan::AggregatePartial {
                    input: x,
                    group_by_key_type,
                    ..
                } && {
                    &&& c.plan matches RelOperator::Exchange(ex, cc) ==> (built_from(meta, *cc, *x, start) && kind
                        == fragment_kind(ex))
                    &&& partial_built(agg, *pin, schema_of(*x), start + id_count(*c), stat)
                    &&& schema_of(*pin).len() > 0
                    &&& keys@ == seq![
                        Expr::ColumnRef { id: (schema_of(*pin).len() - 1) as usize, data_type: group_by_key_type },
                    ]
                })
                ||| (p matches PhysicalPlan::AggregatePartial { input, .. } && {
                    &&& !(*input is Exchange)
                    &&& built_from(meta, *c, *input, start)
                    &&& partial_built(agg, p, schema_of(*input), start + id_count(*c), stat)
                })
            },
            AggregateMode::Final => p matches PhysicalPlan::AggregateFinal {
                plan_id,
                input,
                group_by,
                agg_funcs,
                before_group_by_schema,
                group_fields,
                limit,
                stat_info,
            } && {
                &&& built_from(meta, *c, *input, start)
                &&& before_group_by(*input) == Some(before_group_by_schema@)
                &&& plan_id == start + id_count(*c)
                &&& stat_info == stat
                &&& limit == agg.limit
                &&& group_by@ == agg.group_items@.map_values(|i: ScalarItem| i.index)
                &&& group_fields_of(group_by@, before_group_by_schema@) == Some(group_fields@)
                &&& agg_funcs@.len() == agg.aggregate_functions@.len()
                &&& forall|k: int|
                    0 <= k < agg_funcs@.len() ==> is_desc_of(
                        agg_funcs@[k],
                        agg.aggregate_functions@[k],
                        before_group_by_schema@,
                    )
            },
            AggregateMode::Initial => false,
        },
        RelOperator::Sort(items, limit, c) => p matches PhysicalPlan::Sort {
            plan_id,
            input,
            order_by,
            limit: l,
            stat_info,
        } && {
            &&& plan_id == start
            &&& built_from(meta, *c, *input, start + 1)
            &&& order_by@ == items@.map_values(|i: SortItem| sort_desc(i))
            &&& l == limit
            &&& stat_info == stat
        },
        RelOperator::Limit(limit, offset, c) => p matches PhysicalPlan::Limit {
            plan_id,
            input,
            limit: l,
            offset: o,
            stat_info,
        } && {
            &&& plan_id == start
            &&& built_from(meta, *c, *input, start + 1)
            &&& l == limit
            &&& o == offset
            &&& stat_info == stat
        },
        RelOperator::Exchange(ex, c) => p matches PhysicalPlan::Exchange { input, kind, keys } && {
            &&& built_from(meta, *c, *input, start)
            &&& kind == fragment_kind(ex)
            &&& match ex {
                Exchange::Hash(scalars) => mapped_list(
                    keys@,
                    scalars@,
                    |e: ScalarExpr| rebound_folded(e, schema_of(*input)),
                ),
                _ => keys@.len() == 0,
            }
        },
        RelOperator::UnionAll(pairs, l, r) => p matches PhysicalPlan::UnionAll {
            plan_id,
            left,
            right,
            pairs: ps,
            schema,
            stat_info,
        } && {
            &&& built_from(meta, *l, *left, start)
            &&& plan_id == start + id_count(*l)
            &&& built_from(meta, *r, *right, start + id_count(*l) + 1)
            &&& ps@ == pairs@
            &&& stat_info == stat
            &&& schema@.len() == pairs@.len()
            &&& forall|k: int|
                0 <= k < pairs@.len() ==> field_named(schema_of(*left), pairs@[k].0) == Some(#[trigger] schema@[k])
        },
        RelOperator::RuntimeFilterSource(lf, rf, l, r) => p matches PhysicalPlan::RuntimeFilterSource {
            plan_id,
            left_side,
            right_side,
            left_runtime_filters,
            right_runtime_filters,
        } && {
            &&& built_from(meta, *l, *left_side, start)
            &&& built_from(meta, *r, *right_side, start + id_count(*l))
            &&& plan_id == start + id_count(*l) + id_count(*r)
            &&& mapped_list(
                left_runtime_filters@,
                lf@.take(min(lf@.len() as int, rf@.len() as int)),
                |f: (usize, ScalarExpr)| keyed_rebound(f, schema_of(*left_side)),
            )
            &&& mapped_list(
                right_runtime_filters@,
                rf@.take(min(lf@.len() as int, rf@.len() as int)),
                |f: (usize, ScalarExpr)| keyed_rebound(f, schema_of(*right_side)),
            )
        },
        RelOperator::Other(_) => false,
    }
}

/// Whether the tree's plan comes out as an exchange at its root.
pub open spec fn builds_exchange(s: SExpr) -> bool
    decreases s,
{
    match s.plan {
        RelOperator::Exchange(..) => true,
        RelOperator::Aggregate(agg, c) => agg.mode == AggregateMode::Partial && builds_exchange(*c),
        _ => false,
    }
}

/// Whether the tree's plan comes out as a partial aggregate at its root.
pub open spec fn is_plain_partial(s: SExpr) -> bool {
    s.plan matches RelOperator::Aggregate(agg, c) && agg.mode == AggregateMode::Partial && !builds_exchange(*c)
}

/// The schema under the partial aggregate that the tree's plan has at its root
/// or right under an exchange at its root, if it has one there.
pub open spec fn partial_input_schema(meta: Metadata, s: SExpr) -> Option<Seq<Field>>
    decreases s, 0int,
{
    match s.plan {
        RelOperator::Aggregate(agg, c) => if agg.mode == AggregateMode::Partial {
            Some(rel_schema(meta, *c))
        } else {
            None
        },
        RelOperator::Exchange(_, cc) => match cc.plan {
            RelOperator::Aggregate(agg, ccc) => if agg.mode == AggregateMode::Partial && !builds_exchange(*ccc) {
                Some(rel_schema(meta, *ccc))
            } else {
                None
            },
            _ => None,
        },
        _ => None,
    }
}

pub open spec fn eval_item_field(item: ScalarItem, input: Seq<Field>) -> Field {
    Field { name: FieldName::Column(item.index), data_type: expr_type(rebound_folded(item_scalar(item), input)->Ok_0) }
}

pub open spec fn state_item_field(item: ScalarItem) -> Field {
    Field { name: FieldName::Column(item.index), data_type: DataType { kind: TypeKind::Text, nullable: false } }
}

pub open spec fn result_item_field(item: ScalarItem) -> Field {
    Field { name: FieldName::Column(item.index), data_type: item.scalar->AggregateFunction_0.return_type }
}

pub open spec fn group_key_fields(agg: Aggregate) -> Seq<Field> {
    if agg.group_items@.len() > 0 {
        seq![
            Field {
                name: FieldName::GroupByKey,
                data_type: hash_key_type(agg.group_items@.map_values(|i: ScalarItem| scalar_type(i.scalar))),
            },
        ]
    } else {
        Seq::empty()
    }
}

/// The fields the plan built from a tree produces.
pub open spec fn rel_schema(meta: Metadata, s: SExpr) -> Seq<Field>
    decreases s, 1int,
{
    match s.plan {
        RelOperator::Scan(scan) => scan_schema(meta, scan),
        RelOperator::DummyTableScan => seq![dummy_field()],
        RelOperator::Join(_, p, b) => rel_schema(meta, *p) + rel_schema(meta, *b),
        RelOperator::EvalScalar(items, c) => {
            let input = rel_schema(meta, *c);
            input + items@.map_values(|i: ScalarItem| eval_item_field(i, input))
        },
        RelOperator::Filter(_, c) => rel_schema(meta, *c),
        RelOperator::Aggregate(agg, c) => match agg.mode {
            AggregateMode::Partial => agg.aggregate_functions@.map_values(|i: ScalarItem| state_item_field(i))
                + group_key_fields(agg),
            AggregateMode::Final => match partial_input_schema(meta, *c) {
                Some(before) => group_fields_of(agg.group_items@.map_values(|i: ScalarItem| i.index), before)->Some_0
                    + agg.aggregate_functions@.map_values(|i: ScalarItem| result_item_field(i)),
                None => Seq::empty(),
            },
            AggregateMode::Initial => Seq::empty(),
        },
        RelOperator::Sort(_, _, c) => rel_schema(meta, *c),
        RelOperator::Limit(_, _, c) => rel_schema(meta, *c),
        RelOperator::Exchange(_, c) => rel_schema(meta, *c),
        RelOperator::UnionAll(pairs, l, _) => {
            let left = rel_schema(meta, *l);
            pairs@.map_values(|pr: (usize, usize)| field_named(left, pr.0)->Some_0)
        },
        RelOperator::RuntimeFilterSource(_, _, l, _) => rel_schema(meta, *l),
        RelOperator::Other(_) => Seq::empty(),
    }
}

/// When a tree can be built: every operator is supported, every column it
/// names can be found where it is bound, every predicate can be made boolean,
/// and every final aggregate stands over a partial one.
pub open spec fn can_build(meta: Metadata, s: SExpr) -> bool
    decreases s,
{
    match s.plan {
        RelOperator::Scan(scan) => scan_ok(meta, scan),
        RelOperator::DummyTableScan => true,
        RelOperator::Join(j, p, b) => {
            &&& can_build(meta, *b)
            &&& can_build(meta, *p)
            &&& forall|k: int| 0 <= k < j.right_conditions@.len()
                ==> rebound_folded(j.right_conditions@[k], rel_schema(meta, *b)) is Ok
            &&& forall|k: int| 0 <= k < j.left_conditions@.len()
                ==> rebound_folded(j.left_conditions@[k], rel_schema(meta, *p)) is Ok
            &&& forall|k: int| 0 <= k < j.non_equi_conditions@.len()
                ==> rebound_folded(j.non_equi_conditions@[k], rel_schema(meta, *p) + rel_schema(meta, *b)) is Ok
        },
        RelOperator::EvalScalar(items, c) => {
            &&& can_build(meta, *c)
            &&& rel_schema(meta, *c).len() + items@.len() <= usize::MAX
            &&& forall|k: int| 0 <= k < items@.len() ==> eval_item(items@[k], rel_schema(meta, *c)) is Ok
        },
        RelOperator::Filter(preds, c) => {
            &&& can_build(meta, *c)
            &&& forall|k: int| 0 <= k < preds@.len() ==> filter_predicate(preds@[k], rel_schema(meta, *c)) is Ok
        },
        RelOperator::Aggregate(agg, c) => can_build(meta, *c) && match agg.mode {
            AggregateMode::Partial => {
                &&& forall|k: int|
                    0 <= k < agg.aggregate_functions@.len() ==> agg_error(agg.aggregate_functions@[k], rel_schema(meta, *c)) is None
                &&& builds_exchange(*c) ==> agg.aggregate_functions@.len() + agg.group_items@.len() > 0
            },
            AggregateMode::Final => partial_input_schema(meta, *c) matches Some(before) && {
                &&& forall|k: int| 0 <= k < agg.aggregate_functions@.len() ==> agg_error(agg.aggregate_functions@[k], before) is None
                &&& group_fields_of(agg.group_items@.map_values(|i: ScalarItem| i.index), before) is Some
            },
            AggregateMode::Initial => false,
        },
        RelOperator::Sort(_, _, c) => can_build(meta, *c),
        RelOperator::Limit(_, _, c) => can_build(meta, *c),
        RelOperator::Exchange(ex, c) => {
            &&& can_build(meta, *c)
            &&& ex matches Exchange::Hash(scalars) ==> forall|k: int|
                0 <= k < scalars@.len() ==> rebound_folded(scalars@[k], rel_schema(meta, *c)) is Ok
        },
        RelOperator::UnionAll(pairs, l, r) => {
            &&& can_build(meta, *l)
            &&& forall|k: int| 0 <= k < pairs@.len() ==> field_named(rel_schema(meta, *l), pairs@[k].0) is Some
            &&& can_build(meta, *r)
        },
        RelOperator::RuntimeFilterSource(lf, rf, l, r) => {
            &&& can_build(meta, *l)
            &&& can_build(meta, *r)
            &&& forall|k: int| 0 <= k < min(lf@.len() as int, rf@.len() as int)
                ==> keyed_rebound(lf@[k], rel_schema(meta, *l)) is Ok
            &&& forall|k: int| 0 <= k < min(lf@.len() as int, rf@.len() as int)
                ==> keyed_rebound(rf@[k], rel_schema(meta, *r)) is Ok
        },
        RelOperator::Other(_) => false,
    }
}

/// What a build call promises: the registry is untouched, the id counter
/// advances by at most the ids the tree needs, and by exactly that on success,
/// where the result is the plan built from the tree.
pub open spec fn build_post(
    before: PhysicalPlanBuilder,
    after: PhysicalPlanBuilder,
    s: SExpr,
    r: Result<PhysicalPlan, BuildError>,
) -> bool {
    &&& after.metadata == before.metadata
    &&& before.next_plan_id <= after.next_plan_id <= before.next_plan_id + id_count(s)
    &&& r is Ok <==> can_build(before.metadata, s)
    &&& r matches Ok(p) ==> {
        &&& after.next_plan_id == before.next_plan_id + id_count(s)
        &&& built_from(before.metadata, s, p, before.next_plan_id as int)
        &&& schema_of(p) == rel_schema(before.metadata, s)
        &&& (p is Exchange) == builds_exchange(s)
        &&& (p is AggregatePartial) == is_plain_partial(s)
        &&& before_group_by(p) == partial_input_schema(before.metadata, s)
    }
}

/// An unnest position is recorded exactly when some item is an unnest call.
pub proof fn lemma_unnest_positions_len(items: Seq<ScalarItem>, offset: int)
    ensures
        has_unnest(items) <==> unnest_positions(items, offset).len() > 0,
    decreases items.len(),
{
    if items.len() > 0 {
        lemma_unnest_positions_len(items.drop_last(), offset);
        if has_unnest(items.drop_last()) {
            let k = choose|k: int| 0 <= k < items.drop_last().len() && items.drop_last()[k].scalar is Unnest;
            assert(items[k].scalar is Unnest);
        }
        if has_unnest(items) && !(items.last().scalar is Unnest) {
            let k = choose|k: int| 0 <= k < items.len() && items[k].scalar is Unnest;
            assert(items.drop_last()[k].scalar is Unnest);
        }
    }
}

fn sort_descs(items: &Vec<SortItem>) -> (r: Vec<SortDesc>)
    ensures
        r@ == items@.map_values(|i: SortItem| sort_desc(i)),
{
    let mut r: Vec<SortDesc> = Vec::new();
    let mut k: usize = 0;
    while k < items.len()
        invariant
            k <= items@.len(),
            r@ == items@.take(k as int).map_values(|i: SortItem| sort_desc(i)),
        decreases items@.len() - k,
    {
        let i = items[k];
        r.push(SortDesc { asc: i.asc, nulls_first: i.nulls_first, order_by: i.index });
        assert(items@.take(k + 1).map_values(|i: SortItem| sort_desc(i)) =~= items@.take(k as int).map_values(
            |i: SortItem| sort_desc(i),
        ).push(sort_desc(items@[k as int])));
        k = k + 1;
    }
    assert(items@.take(k as int) == items@);
    r
}

fn copy_pairs(pairs: &Vec<(usize, usize)>) -> (r: Vec<(usize, usize)>)
    ensures
        r@ == pairs@,
{
    let mut r: Vec<(usize, usize)> = Vec::new();
    let mut k: usize = 0;
    while k < pairs.len()
        invariant
            k <= pairs@.len(),
            r@ == pairs@.take(k as int),
        decreases pairs@.len() - k,
    {
        r.push(pairs[k]);
        assert(pairs@.take(k + 1) == pairs@.take(k as int).push(pairs@[k as int]));
        k = k + 1;
    }
    assert(pairs@.take(k as int) == pairs@);
    r
}

/// The union's fields: for each pair, the left schema's field of its left column.
pub fn union_fields(pairs: &Vec<(usize, usize)>, left: &Vec<Field>) -> (r: Result<Vec<Field>, BuildError>)
    ensures
        r is Ok <==> forall|k: int| 0 <= k < pairs@.len() ==> field_named(left@, pairs@[k].0) is Some,
        r matches Ok(v) ==> v@.len() == pairs@.len() && forall|k: int|
            0 <= k < pairs@.len() ==> field_named(left@, pairs@[k].0) == Some(#[trigger] v@[k]),
        r matches Err(e) ==> exists|k: int|
            0 <= k < pairs@.len() && field_named(left@, pairs@[k].0) is None && e == BuildError::FieldNotFound(
                FieldName::Column(pairs@[k].0),
            ),
{
    let mut out: Vec<Field> = Vec::new();
    let mut k: usize = 0;
    while k < pairs.len()
        invariant
            k <= pairs@.len(),
            out@.len() == k,
            forall|j: int| 0 <= j < k ==> field_named(left@, pairs@[j].0) == Some(#[trigger] out@[j]),
        decreases pairs@.len() - k,
    {
        match index_of(left, FieldName::Column(pairs[k].0)) {
            Some(q) => out.push(left[q]),
            None => return Err(BuildError::FieldNotFound(FieldName::Column(pairs[k].0))),
        }
        k = k + 1;
    }
    assert forall|j: int| 0 <= j < pairs@.len() implies field_named(left@, pairs@[j].0) is Some by {
        assert(field_named(left@, pairs@[j].0) == Some(out@[j]));
    }
    Ok(out)
}

/// The fields a scan's source delivers: the returned columns, in delivery order.
fn scan_fields(meta: &Metadata, order: &Vec<usize>, scan: &Scan) -> (r: Vec<Field>)
    requires
        forall|i: int| 0 <= i < order@.len() ==> order@[i] < meta.columns@.len(),
    ensures
        r@ == returned_columns(*scan, order@).map_values(|i: usize| column_field(*meta, i)),
{
    let mut out: Vec<Field> = Vec::new();
    let mut k: usize = 0;
    while k < order.len()
        invariant
            k <= order@.len(),
            forall|i: int| 0 <= i < order@.len() ==> order@[i] < meta.columns@.len(),
            out@ == returned_columns(*scan, order@.take(k as int)).map_values(|i: usize| column_field(*meta, i)),
        decreases order@.len() - k,
    {
        let idx = order[k];
        assert(order@.take(k + 1).drop_last() == order@.take(k as int));
        let returned = match &scan.prewhere {
            Some(pw) => contains_index(&pw.output_columns, idx),
            None => true,
        };
        if returned {
            let f = Field { name: FieldName::Column(idx), data_type: meta.columns[idx].data_type() };
            out.push(f);
            assert(returned_columns(*scan, order@.take(k + 1)) == returned_columns(*scan, order@.take(k as int)).push(
                idx,
            ));
            assert(returned_columns(*scan, order@.take(k + 1)).map_values(|i: usize| column_field(*meta, i))
                =~= returned_columns(*scan, order@.take(k as int)).map_values(|i: usize| column_field(*meta, i)).push(
                f,
            ));
        } else {
            assert(returned_columns(*scan, order@.take(k + 1)) == returned_columns(*scan, order@.take(k as int)));
        }
        k = k + 1;
    }
    assert(order@.take(k as int) == order@);
    out
}

impl PhysicalPlanBuilder {
    pub fn new(metadata: Metadata) -> (r: Self)
        ensures
            r.metadata == metadata,
            r.next_plan_id == 0,
    {
        PhysicalPlanBuilder { metadata, next_plan_id: 0 }
    }

    fn next_plan_id(&mut self) -> (r: u32)
        requires
            old(self).next_plan_id < u32::MAX,
        ensures
            r == old(self).next_plan_id,
            final(self).next_plan_id == old(self).next_plan_id + 1,
            final(self).metadata == old(self).metadata,
    {
        let id = self.next_plan_id;
        self.next_plan_id = self.next_plan_id + 1;
        id
    }

    /// The cardinality estimate the optimizer derived for the node.
    pub fn build_plan_stat_info(&self, s: &SExpr) -> (r: PlanStatsInfo)
        ensures
            r == stat_of(*s),
    {
        PlanStatsInfo { estimated_rows: s.cardinality }
    }

    /// Builds the physical plan of a relational tree, depth first.
    pub fn build(&mut self, s: &SExpr) -> (r: Result<PhysicalPlan, BuildError>)
        requires
            old(self).next_plan_id + id_count(*s) <= u32::MAX,
        ensures
            build_post(*old(self), *final(self), *s, r),
            s.plan matches RelOperator::Other(name) ==> r matches Err(BuildError::UnsupportedOperator(n)) && n@ == name@,
        decreases s, 1int,
    {
        match &s.plan {
            RelOperator::Scan(_) => self.build_scan(s),
            RelOperator::DummyTableScan => self.build_dummy_scan(s),
            RelOperator::Join(..) => self.build_join(s),
            RelOperator::EvalScalar(..) => self.build_eval_scalar(s),
            RelOperator::Filter(..) => self.build_filter(s),
            RelOperator::Aggregate(..) => self.build_aggregate(s),
            RelOperator::Sort(..) => self.build_sort(s),
            RelOperator::Limit(..) => self.build_limit(s),
            RelOperator::Exchange(..) => self.build_exchange(s),
            RelOperator::UnionAll(..) => self.build_union_all(s),
            RelOperator::RuntimeFilterSource(..) => self.build_runtime_filter_source(s),
            RelOperator::Other(name) => Err(BuildError::UnsupportedOperator(name.clone())),
        }
    }

    fn build_scan(&mut self, s: &SExpr) -> (r: Result<PhysicalPlan, BuildError>)
        requires
            old(self).next_plan_id + id_count(*s) <= u32::MAX,
            s.plan is Scan,
        ensures
            build_post(*old(self), *final(self), *s, r),
        decreases s, 0int,
    {
        let scan = match &s.plan {
            RelOperator::Scan(scan) => scan,
            _ => return Err(BuildError::NotAScalar),
        };
        let stat = self.build_plan_stat_info(s);
        let meta = &self.metadata;
        let mut has_inner_column = false;
        let mut name_mapping: Vec<usize> = Vec::new();
        let mut k: usize = 0;
        while k < scan.columns.len()
            invariant
                k <= scan.columns@.len(),
                forall|j: int| 0 <= j < k ==> scan.columns@[j] < meta.columns@.len(),
                has_inner_column <==> exists|j: int|
                    0 <= j < k && scan.columns@[j] < meta.columns@.len() && entry_path(
                        meta.columns@[scan.columns@[j] as int],
                    ) is Some,
                name_mapping@ == returned_columns(*scan, scan.columns@.take(k as int)),
                s.plan == RelOperator::Scan(*scan),
                self.metadata == old(self).metadata,
                self.next_plan_id == old(self).next_plan_id,
                meta == &self.metadata,
            decreases scan.columns@.len() - k,
        {
            let index = scan.columns[k];
            assert(scan.columns@.take(k + 1).drop_last() == scan.columns@.take(k as int));
            let entry = match meta.column(index) {
                Some(e) => e,
                None => {
                    assert(!(scan.columns@[k as int] < meta.columns@.len()));
                    return Err(BuildError::UnknownColumn(index));
                },
            };
            if entry.is_inner_column() {
                has_inner_column = true;
            }
            let returned = match &scan.prewhere {
                Some(pw) => contains_index(&pw.output_columns, index),
                None => true,
            };
            if returned {
                name_mapping.push(index);
            }
            k = k + 1;
        }
        assert(scan.columns@.take(k as int) == scan.columns@);
        assert(has_inner_column == scan_has_inner(*meta, *scan));
        let table = match meta.table(scan.table_index) {
            Some(t) => t,
            None => return Err(BuildError::UnknownTable(scan.table_index)),
        };
        let pd = match push_downs(meta, scan, &table.schema, has_inner_column) {
            Ok(pd) => pd,
            Err(e) => return Err(e),
        };
        let order: Vec<usize> = if has_inner_column {
            copy_indices(&scan.columns)
        } else {
            match sorted_column_positions(meta, &table.schema, &scan.columns) {
                Ok(pairs) => {
                    proof {
                        lemma_sorted_pairs_unique(pairs@, *meta, table.schema@, scan.columns@);
                        assert forall|i: int| 0 <= i < pairs@.len() implies scan.columns@.contains(pairs@[i].1) by {
                            lemma_sorted_pairs_from_columns(pairs@, *meta, table.schema@, scan.columns@, i);
                        }
                    }
                    pair_columns(&pairs)
                },
                Err(e) => return Err(e),
            }
        };
        assert(order@ == scan_order(*meta, *scan));
        assert forall|i: int| 0 <= i < order@.len() implies order@[i] < meta.columns@.len() by {
            assert(scan.columns@.contains(order@[i]));
        }
        let fields = scan_fields(meta, &order, scan);
        let catalog = table.catalog.clone();
        let source = DataSourcePlan { catalog, push_downs: Some(pd), schema: fields };
        let plan_id = self.next_plan_id();
        Ok(
            PhysicalPlan::TableScan {
                plan_id,
                name_mapping,
                source: Box::new(source),
                table_index: scan.table_index,
                stat_info: Some(stat),
            },
        )
    }

    fn build_dummy_scan(&mut self, s: &SExpr) -> (r: Result<PhysicalPlan, BuildError>)
        requires
            old(self).next_plan_id + id_count(*s) <= u32::MAX,
            s.plan is DummyTableScan,
        ensures
            build_post(*old(self), *final(self), *s, r),
        decreases s, 0int,
    {
        let mut name_mapping: Vec<usize> = Vec::new();
        name_mapping.push(DUMMY_COLUMN_INDEX);
        let mut schema: Vec<Field> = Vec::new();
        schema.push(Field { name: FieldName::Column(DUMMY_COLUMN_INDEX), data_type: DataType { kind: TypeKind::Int, nullable: false } });
        assert(name_mapping@ =~= seq![DUMMY_COLUMN_INDEX]);
        assert(schema@ =~= seq![dummy_field()]);
        let source = DataSourcePlan { catalog: "default".to_owned(), push_downs: None, schema };
        let plan_id = self.next_plan_id();
        Ok(
            PhysicalPlan::TableScan {
                plan_id,
                name_mapping,
                source: Box::new(source),
                table_index: DUMMY_TABLE_INDEX,
                stat_info: Some(PlanStatsInfo { estimated_rows: 1 }),
            },
        )
    }

    fn build_join(&mut self, s: &SExpr) -> (r: Result<PhysicalPlan, BuildError>)
        requires
            old(self).next_plan_id + id_count(*s) <= u32::MAX,
            s.plan is Join,
        ensures
            build_post(*old(self), *final(self), *s, r),
        decreases s, 0int,
    {
        let (join, probe_expr, build_expr) = match &s.plan {
            RelOperator::Join(j, p, b) => (j, p, b),
            _ => return Err(BuildError::NotAScalar),
        };
        let stat = self.build_plan_stat_info(s);
        let build_side = match self.build(build_expr) {
            Ok(p) => p,
            Err(e) => return Err(e),
        };
        let probe_side = match self.build(probe_expr) {
            Ok(p) => p,
            Err(e) => return Err(e),
        };
        let build_schema = build_side.output_schema();
        let probe_schema = probe_side.output_schema();
        let mut merged_schema = probe_side.output_schema();
        crate::plan::append_fields(&mut merged_schema, &build_schema);
        let plan_id = self.next_plan_id();
        let build_keys = match rebind_fold_all(&join.right_conditions, &build_schema) {
            Ok(v) => v,
            Err(e) => return Err(e),
        };
        let probe_keys = match rebind_fold_all(&join.left_conditions, &probe_schema) {
            Ok(v) => v,
            Err(e) => return Err(e),
        };
        let non_equi_conditions = match rebind_fold_all(&join.non_equi_conditions, &merged_schema) {
            Ok(v) => v,
            Err(e) => return Err(e),
        };
        Ok(
            PhysicalPlan::HashJoin {
                plan_id,
                build: Box::new(build_side),
                probe: Box::new(probe_side),
                join_type: join.join_type,
                build_keys,
                probe_keys,
                non_equi_conditions,
                marker_index: join.marker_index,
                from_correlated_subquery: join.from_correlated_subquery,
                contain_runtime_filter: join.contain_runtime_filter,
                stat_info: Some(stat),
            },
        )
    }

    fn build_eval_scalar(&mut self, s: &SExpr) -> (r: Result<PhysicalPlan, BuildError>)
        requires
            old(self).next_plan_id + id_count(*s) <= u32::MAX,
            s.plan is EvalScalar,
        ensures
            build_post(*old(self), *final(self), *s, r),
        decreases s, 0int,
    {
        let (items, child) = match &s.plan {
            RelOperator::EvalScalar(items, c) => (items, c),
            _ => return Err(BuildError::NotAScalar),
        };
        let stat = self.build_plan_stat_info(s);
        let input = match self.build(child) {
            Ok(p) => p,
            Err(e) => return Err(e),
        };
        let input_schema = input.output_schema();
        let offset = input_schema.len();
        let (exprs, offsets) = match eval_items(items, &input_schema, offset) {
            Ok(r) => r,
            Err(e) => return Err(e),
        };
        proof {
            lemma_unnest_positions_len(items@, offset as int);
            assert(exprs@.map_values(|item: (Expr, usize)| eval_field(item)) =~= items@.map_values(
                |i: ScalarItem| eval_item_field(i, input_schema@),
            ));
        }
        let plan_id = self.next_plan_id();
        let ghost meta = old(self).metadata;
        assert(input_schema@ == rel_schema(meta, **child));
        let eval_scalar = PhysicalPlan::EvalScalar { plan_id, input: Box::new(input), exprs, stat_info: Some(stat) };
        assert(schema_of(eval_scalar) == rel_schema(meta, *s));
        if offsets.len() == 0 {
            Ok(eval_scalar)
        } else {
            let unnest_id = self.next_plan_id();
            Ok(PhysicalPlan::Unnest { plan_id: unnest_id, input: Box::new(eval_scalar), offsets, stat_info: Some(stat) })
        }
    }

    fn build_filter(&mut self, s: &SExpr) -> (r: Result<PhysicalPlan, BuildError>)
        requires
            old(self).next_plan_id + id_count(*s) <= u32::MAX,
            s.plan is Filter,
        ensures
            build_post(*old(self), *final(self), *s, r),
        decreases s, 0int,
    {
        let (preds, child) = match &s.plan {
            RelOperator::Filter(p, c) => (p, c),
            _ => return Err(BuildError::NotAScalar),
        };
        let stat = self.build_plan_stat_info(s);
        let input = match self.build(child) {
            Ok(p) => p,
            Err(e) => return Err(e),
        };
        let input_schema = input.output_schema();
        let plan_id = self.next_plan_id();
        let predicates = match filter_predicates(preds, &input_schema) {
            Ok(v) => v,
            Err(e) => return Err(e),
        };
        Ok(PhysicalPlan::Filter { plan_id, input: Box::new(input), predicates, stat_info: Some(stat) })
    }

    fn build_aggregate(&mut self, s: &SExpr) -> (r: Result<PhysicalPlan, BuildError>)
        requires
            old(self).next_plan_id + id_count(*s) <= u32::MAX,
            s.plan is Aggregate,
        ensures
            build_post(*old(self), *final(self), *s, r),
        decreases s, 0int,
    {
        let (agg, child) = match &s.plan {
            RelOperator::Aggregate(a, c) => (a, c),
            _ => return Err(BuildError::NotAScalar),
        };
        let ghost meta = self.metadata;
        let stat = self.build_plan_stat_info(s);
        let input = match self.build(child) {
            Ok(p) => p,
            Err(e) => return Err(e),
        };
        let input_schema = input.output_schema();
        let (group_by, group_types) = group_columns(&agg.group_items);
        match agg.mode {
            AggregateMode::Partial => {
                let agg_funcs = match build_agg_funcs(&agg.aggregate_functions, &input_schema) {
                    Ok(v) => v,
                    Err(e) => return Err(e),
                };
                let group_by_key_type = choose_group_by_key_type(&group_types);
                assert(input_schema@ == rel_schema(meta, **child));
                assert(agg_funcs@.map_values(|d: AggregateFunctionDesc| crate::plan::state_field(d)) =~= agg.aggregate_functions@.map_values(
                    |i: ScalarItem| state_item_field(i),
                ));
                match input {
                    PhysicalPlan::Exchange { input: exchange_input, kind, keys } => {
                        assert(input_schema@ == schema_of(*exchange_input));
                        let plan_id = self.next_plan_id();
                        let partial = PhysicalPlan::AggregatePartial {
                            plan_id,
                            input: exchange_input,
                            group_by,
                            group_by_key_type,
                            agg_funcs,
                            stat_info: Some(stat),
                        };
                        let width = partial.output_schema().len();
                        assert(schema_of(partial) == rel_schema(meta, *s));
                        if width == 0 {
                            return Err(BuildError::EmptyAggregate);
                        }
                        let mut new_keys: Vec<Expr> = Vec::new();
                        new_keys.push(Expr::ColumnRef { id: width - 1, data_type: group_by_key_type });
                        assert(new_keys@ =~= seq![Expr::ColumnRef { id: (width - 1) as usize, data_type: group_by_key_type }]);
                        let result = PhysicalPlan::Exchange { input: Box::new(partial), kind, keys: new_keys };
                        Ok(result)
                    },
                    other => {
                        let plan_id = self.next_plan_id();
                        let result = PhysicalPlan::AggregatePartial {
                            plan_id,
                            input: Box::new(other),
                            group_by,
                            group_by_key_type,
                            agg_funcs,
                            stat_info: Some(stat),
                        };
                        Ok(result)
                    },
                }
            },
            AggregateMode::Final => {
                let before_group_by_schema = match &input {
                    PhysicalPlan::AggregatePartial { input: partial_input, .. } => partial_input.output_schema(),
                    PhysicalPlan::Exchange { input: exchange_input, .. } => match &**exchange_input {
                        PhysicalPlan::AggregatePartial { input: partial_input, .. } => partial_input.output_schema(),
                        _ => return Err(BuildError::InvalidAggregateInput(input.name())),
                    },
                    _ => return Err(BuildError::InvalidAggregateInput(input.name())),
                };
                let agg_funcs = match build_agg_funcs(&agg.aggregate_functions, &before_group_by_schema) {
                    Ok(v) => v,
                    Err(e) => return Err(e),
                };
                let group_fields = match resolve_group_fields(&group_by, &before_group_by_schema) {
                    Ok(v) => v,
                    Err(e) => return Err(e),
                };
                let plan_id = self.next_plan_id();
                assert(partial_input_schema(meta, **child) == Some(before_group_by_schema@));
                assert(agg_funcs@.map_values(|d: AggregateFunctionDesc| crate::plan::result_field(d)) =~= agg.aggregate_functions@.map_values(
                    |i: ScalarItem| result_item_field(i),
                ));
                let result = PhysicalPlan::AggregateFinal {
                    plan_id,
                    input: Box::new(input),
                    group_by,
                    agg_funcs,
                    before_group_by_schema,
                    group_fields,
                    limit: agg.limit,
                    stat_info: Some(stat),
                };
                Ok(result)
            },
            AggregateMode::Initial => Err(BuildError::InitialAggregateMode),
        }
    }

    fn build_sort(&mut self, s: &SExpr) -> (r: Result<PhysicalPlan, BuildError>)
        requires
            old(self).next_plan_id + id_count(*s) <= u32::MAX,
            s.plan is Sort,
        ensures
            build_post(*old(self), *final(self), *s, r),
        decreases s, 0int,
    {
        let (items, limit, child) = match &s.plan {
            RelOperator::Sort(items, limit, c) => (items, limit, c),
            _ => return Err(BuildError::NotAScalar),
        };
        let stat = self.build_plan_stat_info(s);
        let plan_id = self.next_plan_id();
        let input = match self.build(child) {
            Ok(p) => p,
            Err(e) => return Err(e),
        };
        Ok(
            PhysicalPlan::Sort {
                plan_id,
                input: Box::new(input),
                order_by: sort_descs(items),
                limit: *limit,
                stat_info: Some(stat),
            },
        )
    }

    fn build_limit(&mut self, s: &SExpr) -> (r: Result<PhysicalPlan, BuildError>)
        requires
            old(self).next_plan_id + id_count(*s) <= u32::MAX,
            s.plan is Limit,
        ensures
            build_post(*old(self), *final(self), *s, r),
        decreases s, 0int,
    {
        let (limit, offset, child) = match &s.plan {
            RelOperator::Limit(limit, offset, c) => (limit, offset, c),
            _ => return Err(BuildError::NotAScalar),
        };
        let stat = self.build_plan_stat_info(s);
        let plan_id = self.next_plan_id();
        let input = match self.build(child) {
            Ok(p) => p,
            Err(e) => return Err(e),
        };
        Ok(PhysicalPlan::Limit { plan_id, input: Box::new(input), limit: *limit, offset: *offset, stat_info: Some(stat) })
    }

    fn build_exchange(&mut self, s: &SExpr) -> (r: Result<PhysicalPlan, BuildError>)
        requires
            old(self).next_plan_id + id_count(*s) <= u32::MAX,
            s.plan is Exchange,
        ensures
            build_post(*old(self), *final(self), *s, r),
        decreases s, 0int,
    {
        let (exchange, child) = match &s.plan {
            RelOperator::Exchange(e, c) => (e, c),
            _ => return Err(BuildError::NotAScalar),
        };
        let input = match self.build(child) {
            Ok(p) => p,
            Err(e) => return Err(e),
        };
        let input_schema = input.output_schema();
        let (kind, keys) = match exchange {
            Exchange::Random => (FragmentKind::Init, Vec::new()),
            Exchange::Hash(scalars) => match rebind_fold_all(scalars, &input_schema) {
                Ok(keys) => (FragmentKind::Normal, keys),
                Err(e) => return Err(e),
            },
            Exchange::Broadcast => (FragmentKind::Expansive, Vec::new()),
            Exchange::Merge => (FragmentKind::Merge, Vec::new()),
        };
        Ok(PhysicalPlan::Exchange { input: Box::new(input), kind, keys })
    }

    fn build_union_all(&mut self, s: &SExpr) -> (r: Result<PhysicalPlan, BuildError>)
        requires
            old(self).next_plan_id + id_count(*s) <= u32::MAX,
            s.plan is UnionAll,
        ensures
            build_post(*old(self), *final(self), *s, r),
        decreases s, 0int,
    {
        let (pairs, left_expr, right_expr) = match &s.plan {
            RelOperator::UnionAll(pairs, l, r) => (pairs, l, r),
            _ => return Err(BuildError::NotAScalar),
        };
        let stat = self.build_plan_stat_info(s);
        let left = match self.build(left_expr) {
            Ok(p) => p,
            Err(e) => return Err(e),
        };
        let left_schema = left.output_schema();
        let schema = match union_fields(pairs, &left_schema) {
            Ok(v) => v,
            Err(e) => return Err(e),
        };
        assert(schema@ =~= pairs@.map_values(|pr: (usize, usize)| field_named(left_schema@, pr.0)->Some_0));
        let plan_id = self.next_plan_id();
        let right = match self.build(right_expr) {
            Ok(p) => p,
            Err(e) => return Err(e),
        };
        Ok(
            PhysicalPlan::UnionAll {
                plan_id,
                left: Box::new(left),
                right: Box::new(right),
                pairs: copy_pairs(pairs),
                schema,
                stat_info: Some(stat),
            },
        )
    }

    fn build_runtime_filter_source(&mut self, s: &SExpr) -> (r: Result<PhysicalPlan, BuildError>)
        requires
            old(self).next_plan_id + id_count(*s) <= u32::MAX,
            s.plan is RuntimeFilterSource,
        ensures
            build_post(*old(self), *final(self), *s, r),
        decreases s, 0int,
    {
        let (left_filters, right_filters, left_expr, right_expr) = match &s.plan {
            RelOperator::RuntimeFilterSource(lf, rf, l, r) => (lf, rf, l, r),
            _ => return Err(BuildError::NotAScalar),
        };
        let left_side = match self.build(left_expr) {
            Ok(p) => p,
            Err(e) => return Err(e),
        };
        let left_schema = left_side.output_schema();
        let right_side = match self.build(right_expr) {
            Ok(p) => p,
            Err(e) => return Err(e),
        };
        let right_schema = right_side.output_schema();
        let count = if left_filters.len() <= right_filters.len() {
            left_filters.len()
        } else {
            right_filters.len()
        };
        assert(count == min(left_filters@.len() as int, right_filters@.len() as int));
        assert forall|k: int| 0 <= k < count implies left_filters@.take(count as int)[k] == left_filters@[k]
            && right_filters@.take(count as int)[k] == right_filters@[k] by {}
        let left_runtime_filters = match rebind_keyed(left_filters, count, &left_schema) {
            Ok(v) => v,
            Err(e) => return Err(e),
        };
        let right_runtime_filters = match rebind_keyed(right_filters, count, &right_schema) {
            Ok(v) => v,
            Err(e) => return Err(e),
        };
        let plan_id = self.next_plan_id();
        Ok(
            PhysicalPlan::RuntimeFilterSource {
                plan_id,
                left_side: Box::new(left_side),
                right_side: Box::new(right_side),
                left_runtime_filters,
                right_runtime_filters,
            },
        )
    }
}

} // verus!
