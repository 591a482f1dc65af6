use vstd::prelude::*;

use crate::builder::{built_from, has_unnest, id_count};
use crate::expr::Expr;
use crate::metadata::Metadata;
use crate::plan::{eval_field, schema_of, FragmentKind, PhysicalPlan};
use crate::metadata::{entry_name, is_first_table_position, TableField};
use crate::projection::{
    all_positioned, column_position, is_projection_of, is_sorted_pairs_of, position_pairs, Projection,
};
use crate::pushdown::{lemma_without_splits, remain_of};
use crate::relational::{AggregateMode, Exchange, Prewhere, RelOperator, SExpr, Scan};

verus! {

/// A join's output is the probe side's fields followed by the build side's,
/// where the probe side is built from the first child and the build side from
/// the second.
pub proof fn lemma_join_schema(meta: Metadata, s: SExpr, p: PhysicalPlan, start: int)
    requires
        s.plan is Join,
        built_from(meta, s, p, start),
    ensures
        p matches PhysicalPlan::HashJoin { probe, build, .. } && {
            &&& built_from(meta, *s.plan->Join_1, *probe, start + id_count(*s.plan->Join_2))
            &&& built_from(meta, *s.plan->Join_2, *build, start)
            &&& schema_of(p) == schema_of(*probe) + schema_of(*build)
        },
{
}

/// A filter passes its input's fields through unchanged.
pub proof fn lemma_filter_schema(meta: Metadata, s: SExpr, p: PhysicalPlan, start: int)
    requires
        s.plan is Filter,
        built_from(meta, s, p, start),
    ensures
        p matches PhysicalPlan::Filter { input, .. } && {
            &&& built_from(meta, *s.plan->Filter_1, *input, start)
            &&& schema_of(p) == schema_of(*input)
        },
{
}

/// An eval-scalar with no unnest item keeps its input's fields, in order, and
/// appends one field per item after them.
pub proof fn lemma_eval_scalar_schema(meta: Metadata, s: SExpr, p: PhysicalPlan, start: int)
    requires
        s.plan matches RelOperator::EvalScalar(items, _) && !has_unnest(items@),
        built_from(meta, s, p, start),
    ensures
        p matches PhysicalPlan::EvalScalar { input, exprs, .. } && {
            &&& built_from(meta, *s.plan->EvalScalar_1, *input, start)
            &&& schema_of(p).len() == schema_of(*input).len() + s.plan->EvalScalar_0@.len()
            &&& schema_of(p).take(schema_of(*input).len() as int) == schema_of(*input)
            &&& schema_of(p).skip(schema_of(*input).len() as int) == exprs@.map_values(
                |item: (Expr, usize)| eval_field(item),
            )
        },
{
    let input = p->EvalScalar_input;
    let exprs = p->EvalScalar_exprs;
    let tail = exprs@.map_values(|item: (Expr, usize)| eval_field(item));
    assert((schema_of(*input) + tail).take(schema_of(*input).len() as int) =~= schema_of(*input));
    assert((schema_of(*input) + tail).skip(schema_of(*input).len() as int) =~= tail);
}

/// A partial aggregate directly over a hash exchange is pulled beneath the
/// exchange, which is then keyed by the one field that the partial stage
/// emits last.
pub proof fn lemma_partial_over_hash_exchange(meta: Metadata, s: SExpr, p: PhysicalPlan, start: int)
    requires
        s.plan matches RelOperator::Aggregate(agg, c) && agg.mode == AggregateMode::Partial && c.plan matches RelOperator::Exchange(
            Exchange::Hash(_),
            _,
        ),
        built_from(meta, s, p, start),
    ensures
        p matches PhysicalPlan::Exchange { input, kind, keys } && {
            &&& *input is AggregatePartial
            &&& kind == FragmentKind::Normal
            &&& keys@.len() == 1
            &&& schema_of(*input).len() > 0
            &&& keys@[0] matches Expr::ColumnRef { id, .. } && id == (schema_of(*input).len() - 1) as usize
        },
{
    let c = *s.plan->Aggregate_1;
    if p is AggregatePartial {
        let input = p->AggregatePartial_input;
        assert(built_from(meta, c, *input, start));
        assert(*input is Exchange);
    }
}

/// Every positioned column's position is among the sorted pairs' positions.
proof fn lemma_position_listed(
    s: Seq<(usize, usize)>,
    meta: Metadata,
    schema: Seq<TableField>,
    columns: Seq<usize>,
    c: usize,
)
    requires
        is_sorted_pairs_of(s, meta, schema, columns),
        all_positioned(meta, schema, columns),
        columns.contains(c),
    ensures
        s.map_values(|q: (usize, usize)| q.0).contains(column_position(meta, schema, c)->Some_0 as usize),
{
    broadcast use vstd::seq_lib::group_to_multiset_ensures;

    let pp = position_pairs(meta, schema, columns);
    let k = choose|k: int| 0 <= k < columns.len() && columns[k] == c;
    assert(pp[k] == (column_position(meta, schema, c)->Some_0 as usize, c));
    assert(pp.contains(pp[k]));
    assert(s.to_multiset().count(pp[k]) > 0);
    let i = choose|i: int| 0 <= i < s.len() && s[i] == pp[k];
    assert(s.map_values(|q: (usize, usize)| q.0)[i] == pp[k].0);
}

/// Every position among the sorted pairs is the position of one of the columns.
proof fn lemma_listed_position_has_column(
    s: Seq<(usize, usize)>,
    meta: Metadata,
    schema: Seq<TableField>,
    columns: Seq<usize>,
    p: usize,
) -> (c: usize)
    requires
        is_sorted_pairs_of(s, meta, schema, columns),
        s.map_values(|q: (usize, usize)| q.0).contains(p),
    ensures
        columns.contains(c),
        column_position(meta, schema, c)->Some_0 as usize == p,
{
    broadcast use vstd::seq_lib::group_to_multiset_ensures;

    let v = s.map_values(|q: (usize, usize)| q.0);
    let i = choose|i: int| 0 <= i < v.len() && v[i] == p;
    let pp = position_pairs(meta, schema, columns);
    assert(s.contains(s[i]));
    assert(pp.to_multiset().count(s[i]) > 0);
    let k = choose|k: int| 0 <= k < pp.len() && pp[k] == s[i];
    assert(columns.contains(columns[k]));
    columns[k]
}

/// Where distinct columns have distinct names, a prewhere split's projections
/// read disjoint table fields, and between them every field of the columns the
/// scan is asked for.
pub proof fn lemma_prewhere_fields_split(
    meta: Metadata,
    schema: Seq<TableField>,
    scan: Scan,
    prewhere: Prewhere,
    prewhere_projection: Projection,
    remain_projection: Projection,
)
    requires
        schema.len() <= usize::MAX,
        all_positioned(meta, schema, scan.columns@),
        all_positioned(meta, schema, prewhere.prewhere_columns@),
        all_positioned(meta, schema, remain_of(scan, prewhere)),
        is_projection_of(prewhere_projection, meta, schema, prewhere.prewhere_columns@, false),
        is_projection_of(remain_projection, meta, schema, remain_of(scan, prewhere), false),
        forall|a: usize, b: usize|
            #![trigger scan.columns@.contains(a), prewhere.prewhere_columns@.contains(b)]
            (scan.columns@.contains(a) || prewhere.prewhere_columns@.contains(a)) && (scan.columns@.contains(b)
                || prewhere.prewhere_columns@.contains(b)) && a != b ==> entry_name(meta.columns@[a as int])
                != entry_name(meta.columns@[b as int]),
    ensures
        prewhere_projection matches Projection::Columns(pre) && remain_projection matches Projection::Columns(rem) && {
            &&& forall|p: usize| !(pre@.contains(p) && rem@.contains(p))
            &&& forall|c: usize|
                scan.columns@.contains(c) ==> (pre@.contains(column_position(meta, schema, c)->Some_0 as usize)
                    || rem@.contains(column_position(meta, schema, c)->Some_0 as usize))
        },
{
    lemma_without_splits(scan.columns@, prewhere.prewhere_columns@);
    let remain = remain_of(scan, prewhere);
    let pre = prewhere_projection->Columns_0;
    let rem = remain_projection->Columns_0;
    let s1 = choose|s: Seq<(usize, usize)>|
        is_sorted_pairs_of(s, meta, schema, prewhere.prewhere_columns@) && pre@ == s.map_values(
            |q: (usize, usize)| q.0,
        );
    let s2 = choose|s: Seq<(usize, usize)>|
        is_sorted_pairs_of(s, meta, schema, remain) && rem@ == s.map_values(|q: (usize, usize)| q.0);
    assert forall|p: usize| !(pre@.contains(p) && rem@.contains(p)) by {
        if pre@.contains(p) && rem@.contains(p) {
            let a = lemma_listed_position_has_column(s1, meta, schema, prewhere.prewhere_columns@, p);
            let b = lemma_listed_position_has_column(s2, meta, schema, remain, p);
            assert(scan.columns@.contains(b));
            assert(a != b);
            let ka = choose|k: int| 0 <= k < prewhere.prewhere_columns@.len() && prewhere.prewhere_columns@[k] == a;
            let kb = choose|k: int| 0 <= k < remain.len() && remain[k] == b;
            assert(column_position(meta, schema, a) is Some);
            assert(column_position(meta, schema, b) is Some);
            let na = entry_name(meta.columns@[a as int]);
            let nb = entry_name(meta.columns@[b as int]);
            let pa = column_position(meta, schema, a)->Some_0;
            let pb = column_position(meta, schema, b)->Some_0;
            assert(is_first_table_position(schema, na, pa));
            assert(is_first_table_position(schema, nb, pb));
            assert(pa == pb);
            assert(na == nb);
        }
    }
    assert forall|c: usize| scan.columns@.contains(c) implies (pre@.contains(
        column_position(meta, schema, c)->Some_0 as usize,
    ) || rem@.contains(column_position(meta, schema, c)->Some_0 as usize)) by {
        assert(remain.contains(c) || prewhere.prewhere_columns@.contains(c));
        if prewhere.prewhere_columns@.contains(c) {
            lemma_position_listed(s1, meta, schema, prewhere.prewhere_columns@, c);
        } else {
            lemma_position_listed(s2, meta, schema, remain, c);
        }
    }
}

} // verus!
