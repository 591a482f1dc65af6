use vstd::prelude::*;

use itertools::Itertools;
use vstd::relations::{sorted_by, total_ordering};
use vstd::seq_lib::lemma_sorted_unique;

use crate::error::BuildError;
use crate::metadata::{
    entry_name, entry_path, table_index_of, table_position, Metadata, TableField,
};

verus! {

/// Which fields a storage read returns.
#[derive(Debug)]
pub enum Projection {
    /// Top-level field positions, ascending.
    Columns(Vec<usize>),
    /// For each column index, ascending, the path of positions to its value.
    InnerColumns(Vec<(usize, Vec<usize>)>),
}

/// Pairs compared position first, then column index.
pub open spec fn pair_le(a: (usize, usize), b: (usize, usize)) -> bool {
    a.0 < b.0 || (a.0 == b.0 && a.1 <= b.1)
}

pub open spec fn pairs_sorted(s: Seq<(usize, usize)>) -> bool {
    forall|i: int, j: int| 0 <= i < j < s.len() ==> pair_le(s[i], s[j])
}

/// The column/position pairs of `columns`, in ascending order; there is only
/// one such order.
pub open spec fn sorted_pairs_of(meta: Metadata, schema: Seq<TableField>, columns: Seq<usize>) -> Seq<(usize, usize)> {
    choose|s: Seq<(usize, usize)>| is_sorted_pairs_of(s, meta, schema, columns)
}

proof fn lemma_pair_le_total()
    ensures
        total_ordering(|a: (usize, usize), b: (usize, usize)| pair_le(a, b)),
{
}

/// Sorting the pairs has one outcome.
pub proof fn lemma_sorted_pairs_unique(
    s: Seq<(usize, usize)>,
    meta: Metadata,
    schema: Seq<TableField>,
    columns: Seq<usize>,
)
    requires
        is_sorted_pairs_of(s, meta, schema, columns),
    ensures
        s == sorted_pairs_of(meta, schema, columns),
{
    let t = sorted_pairs_of(meta, schema, columns);
    let leq = |a: (usize, usize), b: (usize, usize)| pair_le(a, b);
    lemma_pair_le_total();
    assert(sorted_by(s, leq));
    assert(sorted_by(t, leq));
    lemma_sorted_unique(s, t, leq);
}

/// Every pair holds one of the columns.
pub proof fn lemma_sorted_pairs_from_columns(
    s: Seq<(usize, usize)>,
    meta: Metadata,
    schema: Seq<TableField>,
    columns: Seq<usize>,
    i: int,
)
    requires
        is_sorted_pairs_of(s, meta, schema, columns),
        0 <= i < s.len(),
    ensures
        columns.contains(s[i].1),
{
    broadcast use vstd::seq_lib::group_to_multiset_ensures;

    let pp = position_pairs(meta, schema, columns);
    assert(s.contains(s[i]));
    assert(s.to_multiset().count(s[i]) > 0);
    assert(pp.contains(s[i]));
    let k = choose|k: int| 0 <= k < pp.len() && pp[k] == s[i];
    assert(columns[k] == s[i].1);
}

/// Relies on itertools::Itertools::sorted: collects the items into a vector and
/// sorts it by the tuples' lexicographic order, so the result holds the same
/// items, ascending.
#[verifier::external_body]
fn sorted_pairs(v: Vec<(usize, usize)>) -> (r: Vec<(usize, usize)>)
    ensures
        r@.to_multiset() == v@.to_multiset(),
        pairs_sorted(r@),
{
    v.into_iter().sorted().collect()
}

/// The table-schema position of a column, found by the column's name.
pub open spec fn column_position(meta: Metadata, schema: Seq<TableField>, index: usize) -> Option<int> {
    if index < meta.columns@.len() {
        table_position(schema, entry_name(meta.columns@[index as int]))
    } else {
        None
    }
}

/// The path of positions that reaches a column: its own path for a sub-field,
/// else its one top-level position.
pub open spec fn column_path(meta: Metadata, schema: Seq<TableField>, index: usize) -> Option<Seq<usize>> {
    if index < meta.columns@.len() {
        match entry_path(meta.columns@[index as int]) {
            Some(p) => Some(p),
            None => match column_position(meta, schema, index) {
                Some(p) => Some(seq![p as usize]),
                None => None,
            },
        }
    } else {
        None
    }
}

pub open spec fn all_positioned(meta: Metadata, schema: Seq<TableField>, columns: Seq<usize>) -> bool {
    forall|k: int| 0 <= k < columns.len() ==> column_position(meta, schema, columns[k]) is Some
}

pub open spec fn all_pathed(meta: Metadata, schema: Seq<TableField>, columns: Seq<usize>) -> bool {
    forall|k: int| 0 <= k < columns.len() ==> column_path(meta, schema, columns[k]) is Some
}

/// Each column paired with its position: (position, column index).
pub open spec fn position_pairs(meta: Metadata, schema: Seq<TableField>, columns: Seq<usize>) -> Seq<(usize, usize)> {
    Seq::new(
        columns.len(),
        |k: int| (column_position(meta, schema, columns[k])->Some_0 as usize, columns[k]),
    )
}

/// `r` is the column/position pairs put in ascending order.
pub open spec fn is_sorted_pairs_of(
    r: Seq<(usize, usize)>,
    meta: Metadata,
    schema: Seq<TableField>,
    columns: Seq<usize>,
) -> bool {
    &&& pairs_sorted(r)
    &&& r.to_multiset() == position_pairs(meta, schema, columns).to_multiset()
}

fn column_error(meta: &Metadata, index: usize) -> (r: BuildError)
    ensures
        index < meta.columns@.len() ==> r == BuildError::TableColumnNotFound(index),
        index >= meta.columns@.len() ==> r == BuildError::UnknownColumn(index),
{
    if index < meta.columns.len() {
        BuildError::TableColumnNotFound(index)
    } else {
        BuildError::UnknownColumn(index)
    }
}

/// Finds each column's position in the table schema and returns the
/// (position, column index) pairs in ascending order.
pub fn sorted_column_positions(meta: &Metadata, schema: &Vec<TableField>, columns: &Vec<usize>) -> (r:
    Result<Vec<(usize, usize)>, BuildError>)
    ensures
        r is Ok <==> all_positioned(*meta, schema@, columns@),
        r matches Ok(v) ==> is_sorted_pairs_of(v@, *meta, schema@, columns@),
        r matches Err(e) ==> exists|k: int|
            0 <= k < columns@.len() && column_position(*meta, schema@, columns@[k]) is None
                && (e == BuildError::TableColumnNotFound(columns@[k]) || e
                == BuildError::UnknownColumn(columns@[k])),
{
    let mut pairs: Vec<(usize, usize)> = Vec::new();
    let mut k: usize = 0;
    while k < columns.len()
        invariant
            k <= columns@.len(),
            pairs@ == position_pairs(*meta, schema@, columns@.take(k as int)),
            all_positioned(*meta, schema@, columns@.take(k as int)),
        decreases columns@.len() - k,
    {
        let index = columns[k];
        let pos = match meta.column(index) {
            Some(entry) => table_index_of(schema, entry.name()),
            None => None,
        };
        match pos {
            Some(p) => {
                pairs.push((p, index));
                assert(columns@.take(k + 1).drop_last() == columns@.take(k as int));
                assert(pairs@ =~= position_pairs(*meta, schema@, columns@.take(k + 1)));
            },
            None => {
                return Err(column_error(meta, index));
            },
        }
        k = k + 1;
    }
    assert(columns@.take(k as int) == columns@);
    Ok(sorted_pairs(pairs))
}

/// Finds the path to each column, in the order of `columns`.
pub fn inner_column_paths(meta: &Metadata, schema: &Vec<TableField>, columns: &Vec<usize>) -> (r:
    Result<Vec<(usize, Vec<usize>)>, BuildError>)
    ensures
        r is Ok <==> all_pathed(*meta, schema@, columns@),
        r matches Ok(v) ==> {
            &&& v@.len() == columns@.len()
            &&& forall|k: int|
                0 <= k < columns@.len() ==> v@[k].0 == columns@[k] && Some(v@[k].1@) == column_path(
                    *meta,
                    schema@,
                    columns@[k],
                )
        },
        r matches Err(e) ==> exists|k: int|
            0 <= k < columns@.len() && column_path(*meta, schema@, columns@[k]) is None
                && (e == BuildError::TableColumnNotFound(columns@[k]) || e
                == BuildError::UnknownColumn(columns@[k])),
{
    let mut out: Vec<(usize, Vec<usize>)> = Vec::new();
    let mut k: usize = 0;
    while k < columns.len()
        invariant
            k <= columns@.len(),
            out@.len() == k,
            forall|j: int|
                0 <= j < k ==> out@[j].0 == columns@[j] && Some(out@[j].1@) == column_path(
                    *meta,
                    schema@,
                    columns@[j],
                ),
        decreases columns@.len() - k,
    {
        let index = columns[k];
        let path: Option<Vec<usize>> = match meta.column(index) {
            Some(entry) => match entry {
                crate::metadata::ColumnEntry::BaseTableColumn {
                    path_indices: Some(p),
                    ..
                } => Some(copy_indices(p)),
                _ => match table_index_of(schema, entry.name()) {
                    Some(p) => {
                        let v = vec![p];
                        assert(v@ =~= seq![p]);
                        Some(v)
                    },
                    None => None,
                },
            },
            None => None,
        };
        match path {
            Some(p) => {
                out.push((index, p));
            },
            None => {
                assert(column_path(*meta, schema@, columns@[k as int]) is None);
                return Err(column_error(meta, index));
            },
        }
        k = k + 1;
    }
    Ok(out)
}

/// A copy of a list of positions.
pub fn copy_indices(v: &Vec<usize>) -> (r: Vec<usize>)
    ensures
        r@ == v@,
{
    let mut r: Vec<usize> = Vec::new();
    let mut i: usize = 0;
    while i < v.len()
        invariant
            i <= v@.len(),
            r@ == v@.take(i as int),
        decreases v@.len() - i,
    {
        r.push(v[i]);
        assert(v@.take(i + 1) =~= v@.take(i as int).push(v@[i as int]));
        i = i + 1;
    }
    assert(v@.take(i as int) =~= v@);
    r
}

/// The first components of the pairs.
pub fn pair_positions(pairs: &Vec<(usize, usize)>) -> (r: Vec<usize>)
    ensures
        r@ == pairs@.map_values(|p: (usize, usize)| p.0),
{
    let mut r: Vec<usize> = Vec::new();
    let mut i: usize = 0;
    while i < pairs.len()
        invariant
            i <= pairs@.len(),
            r@ == pairs@.take(i as int).map_values(|p: (usize, usize)| p.0),
        decreases pairs@.len() - i,
    {
        r.push(pairs[i].0);
        assert(pairs@.take(i + 1).map_values(|p: (usize, usize)| p.0) =~= pairs@.take(
            i as int,
        ).map_values(|p: (usize, usize)| p.0).push(pairs@[i as int].0));
        i = i + 1;
    }
    assert(pairs@.take(i as int) =~= pairs@);
    r
}

/// `p` projects `columns` out of a table schema: flat positions in ascending
/// order, or, where any requested column is a sub-field, a path for each
/// column in the order of `columns`.
pub open spec fn is_projection_of(
    p: Projection,
    meta: Metadata,
    schema: Seq<TableField>,
    columns: Seq<usize>,
    has_inner_column: bool,
) -> bool {
    if !has_inner_column {
        p matches Projection::Columns(v) && exists|s: Seq<(usize, usize)>|
            is_sorted_pairs_of(s, meta, schema, columns) && v@ == s.map_values(
                |q: (usize, usize)| q.0,
            )
    } else {
        p matches Projection::InnerColumns(v) && {
            &&& v@.len() == columns.len()
            &&& forall|k: int|
                0 <= k < columns.len() ==> v@[k].0 == columns[k] && Some(v@[k].1@) == column_path(
                    meta,
                    schema,
                    columns[k],
                )
        }
    }
}

/// The projection of `columns` over a table schema: flat positions in
/// ascending order, or, where any requested column is a sub-field, a path for
/// each column in the order of `columns`.
pub fn build_projection(
    meta: &Metadata,
    schema: &Vec<TableField>,
    columns: &Vec<usize>,
    has_inner_column: bool,
) -> (r: Result<Projection, BuildError>)
    ensures
        !has_inner_column ==> (r is Ok <==> all_positioned(*meta, schema@, columns@)),
        has_inner_column ==> (r is Ok <==> all_pathed(*meta, schema@, columns@)),
        r matches Ok(p) ==> is_projection_of(p, *meta, schema@, columns@, has_inner_column),
{
    if !has_inner_column {
        match sorted_column_positions(meta, schema, columns) {
            Ok(pairs) => Ok(Projection::Columns(pair_positions(&pairs))),
            Err(e) => Err(e),
        }
    } else {
        match inner_column_paths(meta, schema, columns) {
            Ok(paths) => Ok(Projection::InnerColumns(paths)),
            Err(e) => Err(e),
        }
    }
}

/// The second components of the pairs.
pub fn pair_columns(pairs: &Vec<(usize, usize)>) -> (r: Vec<usize>)
    ensures
        r@ == pairs@.map_values(|p: (usize, usize)| p.1),
{
    let mut r: Vec<usize> = Vec::new();
    let mut i: usize = 0;
    while i < pairs.len()
        invariant
            i <= pairs@.len(),
            r@ == pairs@.take(i as int).map_values(|p: (usize, usize)| p.1),
        decreases pairs@.len() - i,
    {
        r.push(pairs[i].1);
        assert(pairs@.take(i + 1).map_values(|p: (usize, usize)| p.1) =~= pairs@.take(
            i as int,
        ).map_values(|p: (usize, usize)| p.1).push(pairs@[i as int].1));
        i = i + 1;
    }
    assert(pairs@.take(i as int) =~= pairs@);
    r
}

} // verus!
