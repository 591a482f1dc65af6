use vstd::prelude::*;

use crate::error::BuildError;
use crate::expr::{fold, folded, non_null_boolean, cast_to_non_null_boolean, BinaryOp, Expr};
use crate::metadata::{entry_type, Metadata, TableField};
use crate::projection::{build_projection, is_projection_of, Projection};
use crate::relational::{Prewhere, Scan, SortItem};
use crate::scalar::{storage_bound, to_storage_expr, ScalarExpr};

verus! {

#[derive(Debug)]
pub struct PrewhereInfo {
    pub output_columns: Projection,
    pub prewhere_columns: Projection,
    pub remain_columns: Projection,
    pub filter: Expr,
}

/// The storage hints attached to a scan.
#[derive(Debug)]
pub struct PushDownInfo {
    pub projection: Projection,
    pub filter: Option<Expr>,
    pub prewhere: Option<PrewhereInfo>,
    pub limit: Option<usize>,
    /// (column reference, ascending, nulls first)
    pub order_by: Vec<(Expr, bool, bool)>,
}

/// The storage-level form of each predicate; the first that fails decides.
pub open spec fn storage_all(s: Seq<ScalarExpr>) -> Result<Seq<Expr>, BuildError>
    decreases s.len(),
{
    if s.len() == 0 {
        Ok(Seq::empty())
    } else {
        match storage_all(s.drop_last()) {
            Ok(v) => match storage_bound(s.last()) {
                Ok(e) => Ok(v.push(e)),
                Err(e) => Err(e),
            },
            Err(e) => Err(e),
        }
    }
}

/// The conjunction of the expressions, folded from the left.
pub open spec fn and_all(s: Seq<Expr>) -> Expr
    decreases s.len(),
{
    if s.len() <= 1 {
        s[0]
    } else {
        Expr::Binary { op: BinaryOp::And, left: Box::new(and_all(s.drop_last())), right: Box::new(s.last()) }
    }
}

/// The predicates joined by AND, made a non-null boolean and folded.
pub open spec fn combined_filter(preds: Seq<ScalarExpr>) -> Result<Expr, BuildError> {
    match storage_all(preds) {
        Ok(es) => match non_null_boolean(and_all(es)) {
            Some(c) => Ok(folded(c)),
            None => Err(BuildError::CannotCastToBoolean),
        },
        Err(e) => Err(e),
    }
}

/// Joins a non-empty list of predicates into one folded, non-null boolean
/// storage-level filter.
pub fn combine_predicates(preds: &Vec<ScalarExpr>) -> (r: Result<Expr, BuildError>)
    requires
        preds@.len() > 0,
    ensures
        r == combined_filter(preds@),
{
    let mut acc: Option<Expr> = None;
    let mut k: usize = 0;
    let ghost mut es: Seq<Expr> = Seq::empty();
    while k < preds.len()
        invariant
            k <= preds@.len(),
            storage_all(preds@.take(k as int)) == Ok::<Seq<Expr>, BuildError>(es),
            es.len() == k,
            k == 0 <==> acc is None,
            acc matches Some(a) ==> a == and_all(es),
        decreases preds@.len() - k,
    {
        assert(preds@.take(k + 1).drop_last() == preds@.take(k as int));
        match to_storage_expr(&preds[k]) {
            Ok(e) => {
                let ghost prev = es;
                proof {
                    es = es.push(e);
                }
                assert(es.drop_last() =~= prev);
                acc = match acc {
                    None => Some(e),
                    Some(a) => Some(Expr::Binary { op: BinaryOp::And, left: Box::new(a), right: Box::new(e) }),
                };
                assert(es.len() == 1 ==> es[0] == e);
            },
            Err(e) => {
                assert(storage_all(preds@.take(k + 1)) == Err::<Seq<Expr>, BuildError>(e));
                proof {
                    lemma_storage_all_prefix_err(preds@, k + 1);
                }
                return Err(e);
            },
        }
        k = k + 1;
    }
    assert(preds@.take(k as int) == preds@);
    let conj = match acc {
        Some(a) => a,
        None => {
            assert(false);
            Expr::Constant { value: crate::expr::Value::Null, data_type: crate::expr::DataType::boolean(true) }
        },
    };
    match cast_to_non_null_boolean(conj) {
        Some(c) => Ok(fold(&c)),
        None => Err(BuildError::CannotCastToBoolean),
    }
}

/// Once a prefix fails, so does every longer prefix, with the same error.
proof fn lemma_storage_all_prefix_err(s: Seq<ScalarExpr>, k: int)
    requires
        0 <= k <= s.len(),
        storage_all(s.take(k)) is Err,
    ensures
        storage_all(s) == storage_all(s.take(k)),
    decreases s.len() - k,
{
    if k < s.len() {
        assert(s.take(k + 1).drop_last() == s.take(k));
        lemma_storage_all_prefix_err(s, k + 1);
    } else {
        assert(s.take(k) == s);
    }
}

/// The columns of `s` that `t` does not hold, in the order of `s`.
pub open spec fn without(s: Seq<usize>, t: Seq<usize>) -> Seq<usize>
    decreases s.len(),
{
    if s.len() == 0 {
        Seq::empty()
    } else {
        let r = without(s.drop_last(), t);
        if t.contains(s.last()) {
            r
        } else {
            r.push(s.last())
        }
    }
}

pub open spec fn projection_ok(meta: Metadata, schema: Seq<TableField>, columns: Seq<usize>, has_inner_column: bool) -> bool {
    if has_inner_column {
        crate::projection::all_pathed(meta, schema, columns)
    } else {
        crate::projection::all_positioned(meta, schema, columns)
    }
}

/// The columns a prewhere split leaves for after its predicate.
pub open spec fn remain_of(scan: Scan, prewhere: Prewhere) -> Seq<usize> {
    without(scan.columns@, prewhere.prewhere_columns@)
}

pub open spec fn prewhere_ok(meta: Metadata, schema: Seq<TableField>, scan: Scan, has_inner_column: bool) -> bool {
    match scan.prewhere {
        None => true,
        Some(pw) => {
            &&& projection_ok(meta, schema, pw.output_columns@, has_inner_column)
            &&& projection_ok(meta, schema, pw.prewhere_columns@, has_inner_column)
            &&& projection_ok(meta, schema, remain_of(scan, pw), has_inner_column)
            &&& pw.predicates@.len() > 0
            &&& combined_filter(pw.predicates@) is Ok
        },
    }
}

pub open spec fn filter_ok(scan: Scan) -> bool {
    match scan.push_down_predicates {
        Some(p) => p@.len() > 0 ==> combined_filter(p@) is Ok,
        None => true,
    }
}

pub open spec fn order_ok(meta: Metadata, scan: Scan) -> bool {
    match scan.order_by {
        Some(items) => forall|k: int| 0 <= k < items@.len() ==> items@[k].index < meta.columns@.len(),
        None => true,
    }
}

/// The storage-level column reference a sort item stands for.
pub open spec fn order_entry(meta: Metadata, item: SortItem) -> (Expr, bool, bool) {
    (
        Expr::ColumnRef { id: item.index, data_type: entry_type(meta.columns@[item.index as int]) },
        item.asc,
        item.nulls_first,
    )
}

/// The columns of `s` that `t` does not hold.
pub fn remain_columns(s: &Vec<usize>, t: &Vec<usize>) -> (r: Vec<usize>)
    ensures
        r@ == without(s@, t@),
{
    let mut r: Vec<usize> = Vec::new();
    let mut k: usize = 0;
    while k < s.len()
        invariant
            k <= s@.len(),
            r@ == without(s@.take(k as int), t@),
        decreases s@.len() - k,
    {
        assert(s@.take(k + 1).drop_last() == s@.take(k as int));
        let c = s[k];
        let found = contains_index(t, c);
        if !found {
            r.push(c);
        }
        k = k + 1;
    }
    assert(s@.take(k as int) == s@);
    r
}

/// Whether `t` holds `c`.
pub fn contains_index(t: &Vec<usize>, c: usize) -> (found: bool)
    ensures
        found == t@.contains(c),
{
    let mut found = false;
    let mut j: usize = 0;
    while j < t.len()
        invariant
            j <= t@.len(),
            found <==> t@.take(j as int).contains(c),
        decreases t@.len() - j,
    {
        assert(t@.take(j + 1) == t@.take(j as int).push(t@[j as int]));
        if t[j] == c {
            found = true;
        }
        proof {
            let nt = t@.take(j + 1);
            let pt = t@.take(j as int);
            if nt.contains(c) {
                let i = choose|i: int| 0 <= i < nt.len() && nt[i] == c;
                if i < j {
                    assert(pt[i] == c);
                }
            }
            if pt.contains(c) {
                let i = choose|i: int| 0 <= i < pt.len() && pt[i] == c;
                assert(nt[i] == c);
            }
            assert(nt[j as int] == t@[j as int]);
        }
        j = j + 1;
    }
    assert(t@.take(j as int) == t@);
    found
}

/// What `remain_columns` keeps: the columns of `s` not in `t`, so that it is
/// disjoint from `t` and, together with `t`, covers every column of `s`.
pub proof fn lemma_without_splits(s: Seq<usize>, t: Seq<usize>)
    ensures
        forall|x: usize| without(s, t).contains(x) <==> (s.contains(x) && !t.contains(x)),
        forall|x: usize| !(without(s, t).contains(x) && t.contains(x)),
        forall|x: usize| s.contains(x) ==> (without(s, t).contains(x) || t.contains(x)),
    decreases s.len(),
{
    if s.len() > 0 {
        lemma_without_splits(s.drop_last(), t);
        let r = without(s.drop_last(), t);
        assert forall|x: usize| without(s, t).contains(x) <==> (s.contains(x) && !t.contains(x)) by {
            if s.contains(x) {
                let i = choose|i: int| 0 <= i < s.len() && s[i] == x;
                if i < s.len() - 1 {
                    assert(s.drop_last()[i] == x);
                }
            }
            if s.drop_last().contains(x) {
                let i = choose|i: int| 0 <= i < s.drop_last().len() && s.drop_last()[i] == x;
                assert(s[i] == x);
            }
            if !t.contains(s.last()) {
                if r.push(s.last()).contains(x) {
                    let i = choose|i: int| 0 <= i < r.len() + 1 && r.push(s.last())[i] == x;
                    if i < r.len() {
                        assert(r[i] == x);
                    }
                }
                if r.contains(x) {
                    let i = choose|i: int| 0 <= i < r.len() && r[i] == x;
                    assert(r.push(s.last())[i] == x);
                }
                assert(r.push(s.last())[r.len() as int] == s.last());
            }
            assert(s[s.len() - 1] == s.last());
        }
    }
}

/// A scan's prewhere split divides its columns: the columns the predicate reads
/// and the columns left for after it share none, and together they cover every
/// column the scan is asked for.
pub proof fn lemma_prewhere_split(scan: Scan, prewhere: Prewhere)
    ensures
        forall|c: usize| !(remain_of(scan, prewhere).contains(c) && prewhere.prewhere_columns@.contains(c)),
        forall|c: usize| scan.columns@.contains(c) ==> (remain_of(scan, prewhere).contains(c)
            || prewhere.prewhere_columns@.contains(c)),
        forall|c: usize| remain_of(scan, prewhere).contains(c) ==> scan.columns@.contains(c),
{
    lemma_without_splits(scan.columns@, prewhere.prewhere_columns@);
}

/// Resolves each sort item to a storage-level column reference.
pub fn build_order_by(meta: &Metadata, items: &Vec<SortItem>) -> (r: Result<Vec<(Expr, bool, bool)>, BuildError>)
    ensures
        r is Ok <==> forall|k: int| 0 <= k < items@.len() ==> items@[k].index < meta.columns@.len(),
        r matches Ok(v) ==> v@.len() == items@.len() && forall|k: int|
            0 <= k < items@.len() ==> v@[k] == order_entry(*meta, items@[k]),
        r matches Err(e) ==> exists|k: int|
            0 <= k < items@.len() && items@[k].index >= meta.columns@.len() && e
                == BuildError::UnknownColumn(items@[k].index),
{
    let mut out: Vec<(Expr, bool, bool)> = Vec::new();
    let mut k: usize = 0;
    while k < items.len()
        invariant
            k <= items@.len(),
            out@.len() == k,
            forall|j: int| 0 <= j < k ==> items@[j].index < meta.columns@.len(),
            forall|j: int| 0 <= j < k ==> out@[j] == order_entry(*meta, items@[j]),
        decreases items@.len() - k,
    {
        let item = items[k];
        match meta.column(item.index) {
            Some(entry) => {
                let data_type = entry.data_type();
                out.push((Expr::ColumnRef { id: item.index, data_type }, item.asc, item.nulls_first));
            },
            None => {
                return Err(BuildError::UnknownColumn(item.index));
            },
        }
        k = k + 1;
    }
    Ok(out)
}

/// Builds the three projections and the folded predicate of a prewhere split.
pub fn build_prewhere(
    meta: &Metadata,
    schema: &Vec<TableField>,
    scan: &Scan,
    prewhere: &Prewhere,
    has_inner_column: bool,
) -> (r: Result<PrewhereInfo, BuildError>)
    requires
        scan.prewhere == Some(*prewhere),
    ensures
        r is Ok <==> prewhere_ok(*meta, schema@, *scan, has_inner_column),
        r matches Ok(info) ==> {
            &&& is_projection_of(info.output_columns, *meta, schema@, prewhere.output_columns@, has_inner_column)
            &&& is_projection_of(info.prewhere_columns, *meta, schema@, prewhere.prewhere_columns@, has_inner_column)
            &&& is_projection_of(info.remain_columns, *meta, schema@, remain_of(*scan, *prewhere), has_inner_column)
            &&& Ok::<Expr, BuildError>(info.filter) == combined_filter(prewhere.predicates@)
        },
{
    let remain = remain_columns(&scan.columns, &prewhere.prewhere_columns);
    let output_columns = match build_projection(meta, schema, &prewhere.output_columns, has_inner_column) {
        Ok(p) => p,
        Err(e) => return Err(e),
    };
    let prewhere_columns = match build_projection(meta, schema, &prewhere.prewhere_columns, has_inner_column) {
        Ok(p) => p,
        Err(e) => return Err(e),
    };
    let remain_columns = match build_projection(meta, schema, &remain, has_inner_column) {
        Ok(p) => p,
        Err(e) => return Err(e),
    };
    if prewhere.predicates.len() == 0 {
        return Err(BuildError::EmptyPrewhere);
    }
    let filter = match combine_predicates(&prewhere.predicates) {
        Ok(f) => f,
        Err(e) => return Err(e),
    };
    Ok(PrewhereInfo { output_columns, prewhere_columns, remain_columns, filter })
}

/// `p` holds the storage hints of `scan` over a table schema.
pub open spec fn is_push_down_of(
    p: PushDownInfo,
    meta: Metadata,
    schema: Seq<TableField>,
    scan: Scan,
    has_inner_column: bool,
) -> bool {
    &&& is_projection_of(p.projection, meta, schema, scan.columns@, has_inner_column)
    &&& match scan.push_down_predicates {
        Some(preds) => if preds@.len() > 0 {
            p.filter matches Some(f) && Ok::<Expr, BuildError>(f) == combined_filter(preds@)
        } else {
            p.filter is None
        },
        None => p.filter is None,
    }
    &&& match scan.prewhere {
        Some(pw) => p.prewhere matches Some(info) && {
            &&& is_projection_of(info.output_columns, meta, schema, pw.output_columns@, has_inner_column)
            &&& is_projection_of(info.prewhere_columns, meta, schema, pw.prewhere_columns@, has_inner_column)
            &&& is_projection_of(info.remain_columns, meta, schema, remain_of(scan, pw), has_inner_column)
            &&& Ok::<Expr, BuildError>(info.filter) == combined_filter(pw.predicates@)
        },
        None => p.prewhere is None,
    }
    &&& p.limit == scan.limit
    &&& match scan.order_by {
        Some(items) => p.order_by@.len() == items@.len() && forall|k: int|
            0 <= k < items@.len() ==> p.order_by@[k] == order_entry(meta, items@[k]),
        None => p.order_by@.len() == 0,
    }
}

/// Builds the storage hints of a scan over a table schema: the projection of
/// its columns, its push-down filter, its prewhere split, its order and limit.
pub fn push_downs(meta: &Metadata, scan: &Scan, schema: &Vec<TableField>, has_inner_column: bool) -> (r:
    Result<PushDownInfo, BuildError>)
    ensures
        r is Ok <==> {
            &&& projection_ok(*meta, schema@, scan.columns@, has_inner_column)
            &&& filter_ok(*scan)
            &&& prewhere_ok(*meta, schema@, *scan, has_inner_column)
            &&& order_ok(*meta, *scan)
        },
        r matches Ok(p) ==> is_push_down_of(p, *meta, schema@, *scan, has_inner_column),
{
    let projection = match build_projection(meta, schema, &scan.columns, has_inner_column) {
        Ok(p) => p,
        Err(e) => return Err(e),
    };
    let filter = match &scan.push_down_predicates {
        Some(preds) => if preds.len() > 0 {
            match combine_predicates(preds) {
                Ok(f) => Some(f),
                Err(e) => return Err(e),
            }
        } else {
            None
        },
        None => None,
    };
    let prewhere = match &scan.prewhere {
        Some(pw) => match build_prewhere(meta, schema, scan, pw, has_inner_column) {
            Ok(info) => Some(info),
            Err(e) => return Err(e),
        },
        None => None,
    };
    let order_by = match &scan.order_by {
        Some(items) => match build_order_by(meta, items) {
            Ok(v) => v,
            Err(e) => return Err(e),
        },
        None => Vec::new(),
    };
    Ok(PushDownInfo { projection, filter, prewhere, limit: scan.limit, order_by })
}

} // verus!
