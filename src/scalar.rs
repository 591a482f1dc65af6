use vstd::prelude::*;

use crate::error::BuildError;
use crate::expr::{
    apply_binary, apply_unary, eval, folded, has_foldable, lemma_fold_keeps_unfoldable,
    lemma_fold_sound, BinaryOp, DataType, Expr, UnaryOp, Value,
};
use crate::schema::{index_of, position_of, Field, FieldName};

verus! {

/// A call of an aggregate function, as the optimizer hands it over.
#[derive(Debug)]
pub struct AggregateCall {
    pub func_name: String,
    pub args: Vec<ScalarExpr>,
    pub params: Vec<Value>,
    pub return_type: DataType,
}

/// A logical scalar expression: columns are referenced by logical index.
#[derive(Debug)]
pub enum ScalarExpr {
    BoundColumnRef { index: usize, data_type: DataType },
    Constant { value: Value, data_type: DataType },
    Unary { op: UnaryOp, arg: Box<ScalarExpr> },
    Binary { op: BinaryOp, left: Box<ScalarExpr>, right: Box<ScalarExpr> },
    AggregateFunction(AggregateCall),
    Unnest(Box<ScalarExpr>),
}

/// The type of a logical expression.
pub open spec fn scalar_type(s: ScalarExpr) -> DataType
    decreases s,
{
    match s {
        ScalarExpr::BoundColumnRef { data_type, .. } => data_type,
        ScalarExpr::Constant { data_type, .. } => data_type,
        ScalarExpr::Unary { op, arg } => crate::expr::unary_type(op, scalar_type(*arg)),
        ScalarExpr::Binary { left, right, .. } => crate::expr::binary_type(
            scalar_type(*left),
            scalar_type(*right),
        ),
        ScalarExpr::AggregateFunction(call) => call.return_type,
        ScalarExpr::Unnest(arg) => scalar_type(*arg),
    }
}

impl ScalarExpr {
    pub fn data_type(&self) -> (r: DataType)
        ensures
            r == scalar_type(*self),
        decreases *self,
    {
        match self {
            ScalarExpr::BoundColumnRef { data_type, .. } => *data_type,
            ScalarExpr::Constant { data_type, .. } => *data_type,
            ScalarExpr::Unary { op, arg } => crate::expr::unary_result_type(*op, arg.data_type()),
            ScalarExpr::Binary { left, right, .. } => {
                let l = left.data_type();
                let r = right.data_type();
                DataType::boolean(l.nullable || r.nullable)
            },
            ScalarExpr::AggregateFunction(call) => call.return_type,
            ScalarExpr::Unnest(arg) => arg.data_type(),
        }
    }
}

/// The logical expression bound against `schema`: each column index becomes
/// the position of the field that carries it.
pub open spec fn rebound(s: ScalarExpr, schema: Seq<Field>) -> Result<Expr, BuildError>
    decreases s,
{
    match s {
        ScalarExpr::BoundColumnRef { index, data_type } => match position_of(
            schema,
            FieldName::Column(index),
        ) {
            Some(p) => Ok(Expr::ColumnRef { id: p as usize, data_type }),
            None => Err(BuildError::ColumnNotFound(index)),
        },
        ScalarExpr::Constant { value, data_type } => Ok(Expr::Constant { value, data_type }),
        ScalarExpr::Unary { op, arg } => match rebound(*arg, schema) {
            Ok(a) => Ok(Expr::Unary { op, arg: Box::new(a) }),
            Err(e) => Err(e),
        },
        ScalarExpr::Binary { op, left, right } => match rebound(*left, schema) {
            Ok(l) => match rebound(*right, schema) {
                Ok(r) => Ok(Expr::Binary { op, left: Box::new(l), right: Box::new(r) }),
                Err(e) => Err(e),
            },
            Err(e) => Err(e),
        },
        _ => Err(BuildError::NotAScalar),
    }
}

/// The logical expression as a storage-level expression: each column keeps its
/// logical index as its id, which the storage layer resolves by name.
pub open spec fn storage_bound(s: ScalarExpr) -> Result<Expr, BuildError>
    decreases s,
{
    match s {
        ScalarExpr::BoundColumnRef { index, data_type } => Ok(
            Expr::ColumnRef { id: index, data_type },
        ),
        ScalarExpr::Constant { value, data_type } => Ok(Expr::Constant { value, data_type }),
        ScalarExpr::Unary { op, arg } => match storage_bound(*arg) {
            Ok(a) => Ok(Expr::Unary { op, arg: Box::new(a) }),
            Err(e) => Err(e),
        },
        ScalarExpr::Binary { op, left, right } => match storage_bound(*left) {
            Ok(l) => match storage_bound(*right) {
                Ok(r) => Ok(Expr::Binary { op, left: Box::new(l), right: Box::new(r) }),
                Err(e) => Err(e),
            },
            Err(e) => Err(e),
        },
        _ => Err(BuildError::NotAScalar),
    }
}

/// The value of a logical expression, given the value of each column index.
pub open spec fn eval_scalar(s: ScalarExpr, env: spec_fn(usize) -> Value) -> Value
    decreases s,
{
    match s {
        ScalarExpr::BoundColumnRef { index, .. } => env(index),
        ScalarExpr::Constant { value, .. } => value,
        ScalarExpr::Unary { op, arg } => apply_unary(op, eval_scalar(*arg, env)),
        ScalarExpr::Binary { op, left, right } => apply_binary(
            op,
            eval_scalar(*left, env),
            eval_scalar(*right, env),
        ),
        _ => Value::Null,
    }
}

/// The column values that a row laid out by `schema` gives each column index.
pub open spec fn row_env(schema: Seq<Field>, row: Seq<Value>) -> spec_fn(usize) -> Value {
    |i: usize|
        match position_of(schema, FieldName::Column(i)) {
            Some(p) => if p < row.len() {
                row[p]
            } else {
                Value::Null
            },
            None => Value::Null,
        }
}

/// Binds a logical expression against a physical schema.
pub fn rebind(s: &ScalarExpr, schema: &Vec<Field>) -> (r: Result<Expr, BuildError>)
    ensures
        r == rebound(*s, schema@),
    decreases *s,
{
    match s {
        ScalarExpr::BoundColumnRef { index, data_type } => match index_of(
            schema,
            FieldName::Column(*index),
        ) {
            Some(p) => Ok(Expr::ColumnRef { id: p, data_type: *data_type }),
            None => Err(BuildError::ColumnNotFound(*index)),
        },
        ScalarExpr::Constant { value, data_type } => Ok(
            Expr::Constant { value: *value, data_type: *data_type },
        ),
        ScalarExpr::Unary { op, arg } => match rebind(arg, schema) {
            Ok(a) => Ok(Expr::Unary { op: *op, arg: Box::new(a) }),
            Err(e) => Err(e),
        },
        ScalarExpr::Binary { op, left, right } => match rebind(left, schema) {
            Ok(l) => match rebind(right, schema) {
                Ok(r) => Ok(Expr::Binary { op: *op, left: Box::new(l), right: Box::new(r) }),
                Err(e) => Err(e),
            },
            Err(e) => Err(e),
        },
        _ => Err(BuildError::NotAScalar),
    }
}

/// Converts a logical expression into a storage-level one.
pub fn to_storage_expr(s: &ScalarExpr) -> (r: Result<Expr, BuildError>)
    ensures
        r == storage_bound(*s),
    decreases *s,
{
    match s {
        ScalarExpr::BoundColumnRef { index, data_type } => Ok(
            Expr::ColumnRef { id: *index, data_type: *data_type },
        ),
        ScalarExpr::Constant { value, data_type } => Ok(
            Expr::Constant { value: *value, data_type: *data_type },
        ),
        ScalarExpr::Unary { op, arg } => match to_storage_expr(arg) {
            Ok(a) => Ok(Expr::Unary { op: *op, arg: Box::new(a) }),
            Err(e) => Err(e),
        },
        ScalarExpr::Binary { op, left, right } => match to_storage_expr(left) {
            Ok(l) => match to_storage_expr(right) {
                Ok(r) => Ok(Expr::Binary { op: *op, left: Box::new(l), right: Box::new(r) }),
                Err(e) => Err(e),
            },
            Err(e) => Err(e),
        },
        _ => Err(BuildError::NotAScalar),
    }
}

/// Binds a logical expression against a schema, then folds its constants.
pub fn rebind_and_fold(s: &ScalarExpr, schema: &Vec<Field>) -> (r: Result<Expr, BuildError>)
    ensures
        r == (match rebound(*s, schema@) {
            Ok(e) => Ok(folded(e)),
            Err(e) => Err(e),
        }),
{
    match rebind(s, schema) {
        Ok(e) => Ok(crate::expr::fold(&e)),
        Err(e) => Err(e),
    }
}

proof fn lemma_rebound_eval(s: ScalarExpr, schema: Seq<Field>, row: Seq<Value>)
    requires
        rebound(s, schema) is Ok,
        schema.len() <= usize::MAX,
    ensures
        eval(rebound(s, schema)->Ok_0, row) == eval_scalar(s, row_env(schema, row)),
    decreases s,
{
    match s {
        ScalarExpr::BoundColumnRef { index, .. } => {
            let p = position_of(schema, FieldName::Column(index))->Some_0;
            assert(crate::schema::is_first_position(schema, FieldName::Column(index), p));
        },
        ScalarExpr::Unary { op, arg } => {
            lemma_rebound_eval(*arg, schema, row);
        },
        ScalarExpr::Binary { op, left, right } => {
            lemma_rebound_eval(*left, schema, row);
            lemma_rebound_eval(*right, schema, row);
        },
        _ => {},
    }
}

/// Binding and then folding keeps the value of a logical expression on every
/// row laid out by the schema; where no operator has only constant operands,
/// folding leaves the bound expression as it is, so only the column references
/// have changed.
pub proof fn lemma_rebind_fold_round_trip(s: ScalarExpr, schema: Seq<Field>, row: Seq<Value>)
    requires
        rebound(s, schema) is Ok,
        schema.len() <= usize::MAX,
    ensures
        eval(folded(rebound(s, schema)->Ok_0), row) == eval_scalar(s, row_env(schema, row)),
        !has_foldable(rebound(s, schema)->Ok_0) ==> folded(rebound(s, schema)->Ok_0)
            == rebound(s, schema)->Ok_0,
{
    let e = rebound(s, schema)->Ok_0;
    lemma_rebound_eval(s, schema, row);
    lemma_fold_sound(e, row);
    if !has_foldable(e) {
        lemma_fold_keeps_unfoldable(e);
    }
}

} // verus!
