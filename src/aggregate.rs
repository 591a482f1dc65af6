use vstd::prelude::*;

use crate::error::BuildError;
use crate::expr::{DataType, TypeKind, Value};
use crate::plan::{AggregateFunctionDesc, AggregateFunctionSignature};
use crate::relational::ScalarItem;
use crate::scalar::{scalar_type, ScalarExpr};
use crate::schema::{index_of, position_of, Field, FieldName};

verus! {

/// The position of an aggregate argument in a schema; the argument must be a
/// direct column reference.
pub open spec fn arg_position(arg: ScalarExpr, schema: Seq<Field>) -> Result<usize, BuildError> {
    match arg {
        ScalarExpr::BoundColumnRef { index, .. } => match position_of(schema, FieldName::Column(index)) {
            Some(p) => Ok(p as usize),
            None => Err(BuildError::ColumnNotFound(index)),
        },
        _ => Err(BuildError::AggregateArgumentNotColumn),
    }
}

/// The error of the first argument that cannot be placed, if any.
pub open spec fn first_arg_error(args: Seq<ScalarExpr>, schema: Seq<Field>) -> Option<BuildError>
    decreases args.len(),
{
    if args.len() == 0 {
        None
    } else {
        match first_arg_error(args.drop_last(), schema) {
            Some(e) => Some(e),
            None => match arg_position(args.last(), schema) {
                Ok(_) => None,
                Err(e) => Some(e),
            },
        }
    }
}

/// Why an aggregate item cannot be described against a schema, if it cannot.
pub open spec fn agg_error(item: ScalarItem, schema: Seq<Field>) -> Option<BuildError> {
    match item.scalar {
        ScalarExpr::AggregateFunction(call) => first_arg_error(call.args@, schema),
        _ => Some(BuildError::ExpectedAggregateFunction),
    }
}

/// `d` describes the aggregate call of `item`, its arguments placed in `schema`.
pub open spec fn is_desc_of(d: AggregateFunctionDesc, item: ScalarItem, schema: Seq<Field>) -> bool {
    item.scalar matches ScalarExpr::AggregateFunction(call) && {
        &&& d.output_column == item.index
        &&& d.sig.name@ == call.func_name@
        &&& d.sig.params@ == call.params@
        &&& d.sig.return_type == call.return_type
        &&& d.sig.args@ == call.args@.map_values(|a: ScalarExpr| scalar_type(a))
        &&& d.args@.len() == call.args@.len()
        &&& d.arg_indices@.len() == call.args@.len()
        &&& forall|k: int| 0 <= k < call.args@.len() ==> {
            &&& arg_position(call.args@[k], schema) == Ok::<usize, BuildError>(d.args@[k])
            &&& call.args@[k] matches ScalarExpr::BoundColumnRef { index, .. } && d.arg_indices@[k] == index
        }
    }
}

fn copy_values(v: &Vec<Value>) -> (r: Vec<Value>)
    ensures
        r@ == v@,
{
    let mut r: Vec<Value> = Vec::new();
    let mut i: usize = 0;
    while i < v.len()
        invariant
            i <= v@.len(),
            r@ == v@.take(i as int),
        decreases v@.len() - i,
    {
        r.push(v[i]);
        assert(v@.take(i + 1) == v@.take(i as int).push(v@[i as int]));
        i = i + 1;
    }
    assert(v@.take(i as int) == v@);
    r
}

/// Describes one aggregate item, placing its arguments in `schema`.
pub fn build_agg_desc(item: &ScalarItem, schema: &Vec<Field>) -> (r: Result<AggregateFunctionDesc, BuildError>)
    ensures
        r is Ok <==> agg_error(*item, schema@) is None,
        r matches Ok(d) ==> is_desc_of(d, *item, schema@),
        r matches Err(e) ==> agg_error(*item, schema@) == Some(e),
{
    let call = match &item.scalar {
        ScalarExpr::AggregateFunction(call) => call,
        _ => return Err(BuildError::ExpectedAggregateFunction),
    };
    assert(item.scalar == ScalarExpr::AggregateFunction(*call));
    assert(agg_error(*item, schema@) == first_arg_error(call.args@, schema@));
    let mut args: Vec<usize> = Vec::new();
    let mut arg_indices: Vec<usize> = Vec::new();
    let mut arg_types: Vec<DataType> = Vec::new();
    let mut j: usize = 0;
    while j < call.args.len()
        invariant
            j <= call.args@.len(),
            args@.len() == j,
            arg_indices@.len() == j,
            arg_types@ == call.args@.take(j as int).map_values(|a: ScalarExpr| scalar_type(a)),
            first_arg_error(call.args@.take(j as int), schema@) is None,
            agg_error(*item, schema@) == first_arg_error(call.args@, schema@),
            item.scalar == ScalarExpr::AggregateFunction(*call),
            forall|k: int| 0 <= k < j ==> {
                &&& arg_position(call.args@[k], schema@) == Ok::<usize, BuildError>(args@[k])
                &&& call.args@[k] matches ScalarExpr::BoundColumnRef { index, .. } && arg_indices@[k] == index
            },
        decreases call.args@.len() - j,
    {
        assert(call.args@.take(j + 1).drop_last() == call.args@.take(j as int));
        let arg = &call.args[j];
        match arg {
            ScalarExpr::BoundColumnRef { index, data_type } => match index_of(schema, FieldName::Column(*index)) {
                Some(p) => {
                    args.push(p);
                    arg_indices.push(*index);
                    arg_types.push(*data_type);
                },
                None => {
                    proof {
                        assert(position_of(schema@, FieldName::Column(*index)) is None);
                        assert(arg_position(call.args@[j as int], schema@) == Err::<usize, BuildError>(
                            BuildError::ColumnNotFound(*index),
                        ));
                        assert(call.args@.take(j + 1).last() == call.args@[j as int]);
                        assert(first_arg_error(call.args@.take(j + 1), schema@) == Some(
                            BuildError::ColumnNotFound(*index),
                        ));
                        lemma_first_arg_error_extends(call.args@, schema@, j + 1);
                    }
                    return Err(BuildError::ColumnNotFound(*index));
                },
            },
            _ => {
                proof {
                        assert(call.args@.take(j + 1).last() == call.args@[j as int]);
                        lemma_first_arg_error_extends(call.args@, schema@, j + 1);
                    }
                return Err(BuildError::AggregateArgumentNotColumn);
            },
        }
        assert(call.args@.take(j + 1).map_values(|a: ScalarExpr| scalar_type(a)) =~= call.args@.take(
            j as int,
        ).map_values(|a: ScalarExpr| scalar_type(a)).push(scalar_type(call.args@[j as int])));
        j = j + 1;
    }
    assert(call.args@.take(j as int) == call.args@);
    let sig = AggregateFunctionSignature {
        name: call.func_name.clone(),
        args: arg_types,
        params: copy_values(&call.params),
        return_type: call.return_type,
    };
    Ok(AggregateFunctionDesc { sig, output_column: item.index, args, arg_indices })
}

proof fn lemma_first_arg_error_extends(args: Seq<ScalarExpr>, schema: Seq<Field>, k: int)
    requires
        0 <= k <= args.len(),
        first_arg_error(args.take(k), schema) is Some,
    ensures
        first_arg_error(args, schema) == first_arg_error(args.take(k), schema),
    decreases args.len() - k,
{
    if k < args.len() {
        assert(args.take(k + 1).drop_last() == args.take(k));
        lemma_first_arg_error_extends(args, schema, k + 1);
    } else {
        assert(args.take(k) == args);
    }
}

/// Describes every aggregate item against `schema`.
pub fn build_agg_funcs(items: &Vec<ScalarItem>, schema: &Vec<Field>) -> (r: Result<Vec<AggregateFunctionDesc>, BuildError>)
    ensures
        r is Ok <==> forall|k: int| 0 <= k < items@.len() ==> agg_error(items@[k], schema@) is None,
        r matches Ok(v) ==> v@.len() == items@.len() && forall|k: int|
            0 <= k < items@.len() ==> is_desc_of(v@[k], items@[k], schema@),
        r matches Err(e) ==> exists|k: int| 0 <= k < items@.len() && agg_error(items@[k], schema@) == Some(e),
{
    let mut out: Vec<AggregateFunctionDesc> = Vec::new();
    let mut k: usize = 0;
    while k < items.len()
        invariant
            k <= items@.len(),
            out@.len() == k,
            forall|j: int| 0 <= j < k ==> agg_error(items@[j], schema@) is None,
            forall|j: int| 0 <= j < k ==> is_desc_of(out@[j], items@[j], schema@),
        decreases items@.len() - k,
    {
        match build_agg_desc(&items[k], schema) {
            Ok(d) => out.push(d),
            Err(e) => return Err(e),
        }
        k = k + 1;
    }
    Ok(out)
}

/// The type of the key a partial aggregate emits for its group-by columns: a
/// lone non-null integer column keys by itself, anything else is serialized.
pub open spec fn hash_key_type(types: Seq<DataType>) -> DataType {
    if types.len() == 1 && types[0] == (DataType { kind: TypeKind::Int, nullable: false }) {
        DataType { kind: TypeKind::Int, nullable: false }
    } else {
        DataType { kind: TypeKind::Text, nullable: false }
    }
}

pub fn choose_group_by_key_type(types: &Vec<DataType>) -> (r: DataType)
    ensures
        r == hash_key_type(types@),
{
    if types.len() == 1 && types[0] == (DataType { kind: TypeKind::Int, nullable: false }) {
        DataType { kind: TypeKind::Int, nullable: false }
    } else {
        DataType { kind: TypeKind::Text, nullable: false }
    }
}

/// The column indices of the group-by items and the types of their scalars.
pub fn group_columns(items: &Vec<ScalarItem>) -> (r: (Vec<usize>, Vec<DataType>))
    ensures
        r.0@ == items@.map_values(|i: ScalarItem| i.index),
        r.1@ == items@.map_values(|i: ScalarItem| scalar_type(i.scalar)),
{
    let mut idx: Vec<usize> = Vec::new();
    let mut tys: Vec<DataType> = Vec::new();
    let mut k: usize = 0;
    while k < items.len()
        invariant
            k <= items@.len(),
            idx@ == items@.take(k as int).map_values(|i: ScalarItem| i.index),
            tys@ == items@.take(k as int).map_values(|i: ScalarItem| scalar_type(i.scalar)),
        decreases items@.len() - k,
    {
        idx.push(items[k].index);
        tys.push(items[k].scalar.data_type());
        assert(items@.take(k + 1).map_values(|i: ScalarItem| i.index) =~= items@.take(k as int).map_values(
            |i: ScalarItem| i.index,
        ).push(items@[k as int].index));
        assert(items@.take(k + 1).map_values(|i: ScalarItem| scalar_type(i.scalar)) =~= items@.take(
            k as int,
        ).map_values(|i: ScalarItem| scalar_type(i.scalar)).push(scalar_type(items@[k as int].scalar)));
        k = k + 1;
    }
    assert(items@.take(k as int) == items@);
    (idx, tys)
}

/// The group-by fields as they stand in `schema`.
pub open spec fn group_fields_of(group_by: Seq<usize>, schema: Seq<Field>) -> Option<Seq<Field>> {
    if forall|k: int| 0 <= k < group_by.len() ==> position_of(schema, FieldName::Column(group_by[k])) is Some {
        Some(Seq::new(group_by.len(), |k: int| schema[position_of(schema, FieldName::Column(group_by[k]))->Some_0]))
    } else {
        None
    }
}

/// Looks each group-by column up in `schema`.
pub fn resolve_group_fields(group_by: &Vec<usize>, schema: &Vec<Field>) -> (r: Result<Vec<Field>, BuildError>)
    ensures
        match group_fields_of(group_by@, schema@) {
            Some(f) => r == Ok::<Vec<Field>, BuildError>(r->Ok_0) && r->Ok_0@ == f,
            None => r is Err,
        },
{
    let mut out: Vec<Field> = Vec::new();
    let mut k: usize = 0;
    while k < group_by.len()
        invariant
            k <= group_by@.len(),
            out@.len() == k,
            forall|j: int| 0 <= j < k ==> position_of(schema@, FieldName::Column(group_by@[j])) is Some,
            forall|j: int| 0 <= j < k ==> out@[j] == schema@[position_of(schema@, FieldName::Column(group_by@[j]))->Some_0],
        decreases group_by@.len() - k,
    {
        match index_of(schema, FieldName::Column(group_by[k])) {
            Some(p) => out.push(schema[p]),
            None => return Err(BuildError::FieldNotFound(FieldName::Column(group_by[k]))),
        }
        k = k + 1;
    }
    assert(out@ =~= group_fields_of(group_by@, schema@)->Some_0);
    Ok(out)
}

} // verus!
