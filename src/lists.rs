use vstd::prelude::*;

use crate::error::BuildError;
use crate::expr::{cast_to_non_null_boolean, fold, folded, non_null_boolean, Expr};
use crate::relational::ScalarItem;
use crate::scalar::{rebind, rebind_and_fold, rebound, ScalarExpr};
use crate::schema::Field;

verus! {

/// `r` is `f` applied to each element of `s`: it succeeds when every element
/// does, and otherwise fails with the error of one that fails.
pub open spec fn maps_to<A, B>(r: Result<Vec<B>, BuildError>, s: Seq<A>, f: spec_fn(A) -> Result<B, BuildError>) -> bool {
    &&& r is Ok <==> forall|k: int| 0 <= k < s.len() ==> f(s[k]) is Ok
    &&& r matches Ok(v) ==> v@.len() == s.len() && forall|k: int| 0 <= k < s.len() ==> f(s[k]) == Ok::<B, BuildError>(v@[k])
    &&& r matches Err(e) ==> exists|k: int| 0 <= k < s.len() && f(s[k]) == Err::<B, BuildError>(e)
}

pub open spec fn rebound_folded(s: ScalarExpr, schema: Seq<Field>) -> Result<Expr, BuildError> {
    match rebound(s, schema) {
        Ok(e) => Ok(folded(e)),
        Err(e) => Err(e),
    }
}

/// A filter predicate bound against a schema, made a non-null boolean and folded.
pub open spec fn filter_predicate(s: ScalarExpr, schema: Seq<Field>) -> Result<Expr, BuildError> {
    match rebound(s, schema) {
        Ok(e) => match non_null_boolean(e) {
            Some(c) => Ok(folded(c)),
            None => Err(BuildError::CannotCastToBoolean),
        },
        Err(e) => Err(e),
    }
}

/// The expression an item computes: the argument of an unnest call, else the
/// item's own scalar.
pub open spec fn item_scalar(item: ScalarItem) -> ScalarExpr {
    match item.scalar {
        ScalarExpr::Unnest(arg) => *arg,
        _ => item.scalar,
    }
}

pub open spec fn eval_item(item: ScalarItem, schema: Seq<Field>) -> Result<(Expr, usize), BuildError> {
    match rebound_folded(item_scalar(item), schema) {
        Ok(e) => Ok((e, item.index)),
        Err(e) => Err(e),
    }
}

/// The output positions of the unnest items, for items placed from `offset` on.
pub open spec fn unnest_positions(items: Seq<ScalarItem>, offset: int) -> Seq<usize>
    decreases items.len(),
{
    if items.len() == 0 {
        Seq::empty()
    } else {
        let r = unnest_positions(items.drop_last(), offset);
        if items.last().scalar is Unnest {
            r.push((offset + items.len() - 1) as usize)
        } else {
            r
        }
    }
}

/// Binds and folds each expression against a schema.
pub fn rebind_fold_all(conds: &Vec<ScalarExpr>, schema: &Vec<Field>) -> (r: Result<Vec<Expr>, BuildError>)
    ensures
        maps_to(r, conds@, |s: ScalarExpr| rebound_folded(s, schema@)),
{
    let mut out: Vec<Expr> = Vec::new();
    let mut k: usize = 0;
    while k < conds.len()
        invariant
            k <= conds@.len(),
            out@.len() == k,
            forall|j: int| 0 <= j < k ==> rebound_folded(conds@[j], schema@) == Ok::<Expr, BuildError>(out@[j]),
        decreases conds@.len() - k,
    {
        match rebind_and_fold(&conds[k], schema) {
            Ok(e) => out.push(e),
            Err(e) => return Err(e),
        }
        k = k + 1;
    }
    Ok(out)
}

/// Binds each predicate against a schema, makes it a non-null boolean and folds it.
pub fn filter_predicates(preds: &Vec<ScalarExpr>, schema: &Vec<Field>) -> (r: Result<Vec<Expr>, BuildError>)
    ensures
        maps_to(r, preds@, |s: ScalarExpr| filter_predicate(s, schema@)),
{
    let mut out: Vec<Expr> = Vec::new();
    let mut k: usize = 0;
    while k < preds.len()
        invariant
            k <= preds@.len(),
            out@.len() == k,
            forall|j: int| 0 <= j < k ==> filter_predicate(preds@[j], schema@) == Ok::<Expr, BuildError>(out@[j]),
        decreases preds@.len() - k,
    {
        let e = match rebind(&preds[k], schema) {
            Ok(e) => e,
            Err(e) => return Err(e),
        };
        match cast_to_non_null_boolean(e) {
            Some(c) => out.push(fold(&c)),
            None => return Err(BuildError::CannotCastToBoolean),
        }
        k = k + 1;
    }
    Ok(out)
}

/// Binds and folds the items of an eval-scalar against its input's schema; an
/// unnest item is computed from its argument, and its output position, counted
/// from `offset`, is recorded.
pub fn eval_items(items: &Vec<ScalarItem>, schema: &Vec<Field>, offset: usize) -> (r: Result<
    (Vec<(Expr, usize)>, Vec<usize>),
    BuildError,
>)
    ensures
        offset + items@.len() <= usize::MAX ==> maps_to(
            match r {
                Ok(p) => Ok(p.0),
                Err(e) => Err(e),
            },
            items@,
            |item: ScalarItem| eval_item(item, schema@),
        ),
        offset + items@.len() > usize::MAX ==> r matches Err(BuildError::SchemaTooWide),
        r matches Ok(p) ==> p.1@ == unnest_positions(items@, offset as int),
{
    if offset > usize::MAX - items.len() {
        return Err(BuildError::SchemaTooWide);
    }
    let mut out: Vec<(Expr, usize)> = Vec::new();
    let mut offsets: Vec<usize> = Vec::new();
    let mut k: usize = 0;
    while k < items.len()
        invariant
            k <= items@.len(),
            out@.len() == k,
            forall|j: int| 0 <= j < k ==> eval_item(items@[j], schema@) == Ok::<(Expr, usize), BuildError>(out@[j]),
            offsets@ == unnest_positions(items@.take(k as int), offset as int),
            offset + items@.len() <= usize::MAX,
        decreases items@.len() - k,
    {
        assert(items@.take(k + 1).drop_last() == items@.take(k as int));
        let item = &items[k];
        let scalar = match &item.scalar {
            ScalarExpr::Unnest(arg) => {
                offsets.push(offset + k);
                &**arg
            },
            _ => &item.scalar,
        };
        match rebind_and_fold(scalar, schema) {
            Ok(e) => out.push((e, item.index)),
            Err(e) => return Err(e),
        }
        k = k + 1;
    }
    assert(items@.take(k as int) == items@);
    Ok((out, offsets))
}

/// Binds each runtime filter's expression against a schema, keyed by its id.
pub fn rebind_keyed(filters: &Vec<(usize, ScalarExpr)>, count: usize, schema: &Vec<Field>) -> (r: Result<
    Vec<(usize, Expr)>,
    BuildError,
>)
    requires
        count <= filters@.len(),
    ensures
        maps_to(r, filters@.take(count as int), |f: (usize, ScalarExpr)| keyed_rebound(f, schema@)),
{
    let mut out: Vec<(usize, Expr)> = Vec::new();
    let mut k: usize = 0;
    while k < count
        invariant
            k <= count <= filters@.len(),
            out@.len() == k,
            forall|j: int| 0 <= j < k ==> keyed_rebound(filters@[j], schema@) == Ok::<(usize, Expr), BuildError>(out@[j]),
        decreases count - k,
    {
        assert(filters@.take(count as int)[k as int] == filters@[k as int]);
        match rebind(&filters[k].1, schema) {
            Ok(e) => out.push((filters[k].0, e)),
            Err(e) => return Err(e),
        }
        k = k + 1;
    }
    assert forall|j: int| 0 <= j < count implies filters@.take(count as int)[j] == filters@[j] by {}
    Ok(out)
}

pub open spec fn keyed_rebound(f: (usize, ScalarExpr), schema: Seq<Field>) -> Result<(usize, Expr), BuildError> {
    match rebound(f.1, schema) {
        Ok(e) => Ok((f.0, e)),
        Err(e) => Err(e),
    }
}

} // verus!
