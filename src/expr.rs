use vstd::prelude::*;

verus! {

/// The scalar kinds that a column or an expression can carry.
#[derive(Clone, Copy, Debug, PartialEq, Eq, Structural)]
pub enum TypeKind {
    Boolean,
    Int,
    Text,
}

#[derive(Clone, Copy, Debug, PartialEq, Eq, Structural)]
pub struct DataType {
    pub kind: TypeKind,
    pub nullable: bool,
}

impl DataType {
    pub open spec fn spec_boolean(nullable: bool) -> DataType {
        DataType { kind: TypeKind::Boolean, nullable }
    }

    pub fn boolean(nullable: bool) -> (r: DataType)
        ensures
            r == DataType::spec_boolean(nullable),
    {
        DataType { kind: TypeKind::Boolean, nullable }
    }
}

/// A runtime value; text values never take part in folding and are not modelled.
#[derive(Clone, Copy, Debug, PartialEq, Eq, Structural)]
pub enum Value {
    Null,
    Boolean(bool),
    Int(i64),
}

#[derive(Clone, Copy, Debug, PartialEq, Eq, Structural)]
pub enum UnaryOp {
    Not,
    IsTrue,
    ToBoolean,
    IsNull,
}

#[derive(Clone, Copy, Debug, PartialEq, Eq, Structural)]
pub enum BinaryOp {
    And,
    Or,
    Eq,
    Lt,
}

/// A physical expression: columns are referenced by an id (a field position in
/// an in-memory schema, or a column index for storage-level expressions).
#[derive(Debug)]
pub enum Expr {
    ColumnRef { id: usize, data_type: DataType },
    Constant { value: Value, data_type: DataType },
    Unary { op: UnaryOp, arg: Box<Expr> },
    Binary { op: BinaryOp, left: Box<Expr>, right: Box<Expr> },
}

pub open spec fn apply_unary(op: UnaryOp, v: Value) -> Value {
    match op {
        UnaryOp::Not => match v {
            Value::Boolean(b) => Value::Boolean(!b),
            _ => Value::Null,
        },
        UnaryOp::IsTrue => Value::Boolean(v == Value::Boolean(true)),
        UnaryOp::ToBoolean => match v {
            Value::Boolean(b) => Value::Boolean(b),
            Value::Int(i) => Value::Boolean(i != 0),
            Value::Null => Value::Null,
        },
        UnaryOp::IsNull => Value::Boolean(v == Value::Null),
    }
}

pub open spec fn apply_binary(op: BinaryOp, a: Value, b: Value) -> Value {
    match op {
        BinaryOp::And => if a == Value::Boolean(false) || b == Value::Boolean(false) {
            Value::Boolean(false)
        } else if a == Value::Boolean(true) && b == Value::Boolean(true) {
            Value::Boolean(true)
        } else {
            Value::Null
        },
        BinaryOp::Or => if a == Value::Boolean(true) || b == Value::Boolean(true) {
            Value::Boolean(true)
        } else if a == Value::Boolean(false) && b == Value::Boolean(false) {
            Value::Boolean(false)
        } else {
            Value::Null
        },
        BinaryOp::Eq => match (a, b) {
            (Value::Int(x), Value::Int(y)) => Value::Boolean(x == y),
            (Value::Boolean(x), Value::Boolean(y)) => Value::Boolean(x == y),
            _ => Value::Null,
        },
        BinaryOp::Lt => match (a, b) {
            (Value::Int(x), Value::Int(y)) => Value::Boolean(x < y),
            _ => Value::Null,
        },
    }
}

pub fn eval_unary(op: UnaryOp, v: Value) -> (r: Value)
    ensures
        r == apply_unary(op, v),
{
    match op {
        UnaryOp::Not => match v {
            Value::Boolean(b) => Value::Boolean(!b),
            _ => Value::Null,
        },
        UnaryOp::IsTrue => Value::Boolean(v == Value::Boolean(true)),
        UnaryOp::ToBoolean => match v {
            Value::Boolean(b) => Value::Boolean(b),
            Value::Int(i) => Value::Boolean(i != 0),
            Value::Null => Value::Null,
        },
        UnaryOp::IsNull => Value::Boolean(v == Value::Null),
    }
}

pub fn eval_binary(op: BinaryOp, a: Value, b: Value) -> (r: Value)
    ensures
        r == apply_binary(op, a, b),
{
    match op {
        BinaryOp::And => if a == Value::Boolean(false) || b == Value::Boolean(false) {
            Value::Boolean(false)
        } else if a == Value::Boolean(true) && b == Value::Boolean(true) {
            Value::Boolean(true)
        } else {
            Value::Null
        },
        BinaryOp::Or => if a == Value::Boolean(true) || b == Value::Boolean(true) {
            Value::Boolean(true)
        } else if a == Value::Boolean(false) && b == Value::Boolean(false) {
            Value::Boolean(false)
        } else {
            Value::Null
        },
        BinaryOp::Eq => match (a, b) {
            (Value::Int(x), Value::Int(y)) => Value::Boolean(x == y),
            (Value::Boolean(x), Value::Boolean(y)) => Value::Boolean(x == y),
            _ => Value::Null,
        },
        BinaryOp::Lt => match (a, b) {
            (Value::Int(x), Value::Int(y)) => Value::Boolean(x < y),
            _ => Value::Null,
        },
    }
}

/// The result type of an operator application.
pub open spec fn unary_type(op: UnaryOp, t: DataType) -> DataType {
    match op {
        UnaryOp::Not | UnaryOp::ToBoolean => DataType::spec_boolean(t.nullable),
        UnaryOp::IsTrue | UnaryOp::IsNull => DataType::spec_boolean(false),
    }
}

pub open spec fn binary_type(a: DataType, b: DataType) -> DataType {
    DataType::spec_boolean(a.nullable || b.nullable)
}

pub open spec fn expr_type(e: Expr) -> DataType
    decreases e,
{
    match e {
        Expr::ColumnRef { data_type, .. } => data_type,
        Expr::Constant { data_type, .. } => data_type,
        Expr::Unary { op, arg } => unary_type(op, expr_type(*arg)),
        Expr::Binary { left, right, .. } => binary_type(expr_type(*left), expr_type(*right)),
    }
}

pub fn unary_result_type(op: UnaryOp, t: DataType) -> (r: DataType)
    ensures
        r == unary_type(op, t),
{
    match op {
        UnaryOp::Not | UnaryOp::ToBoolean => DataType::boolean(t.nullable),
        UnaryOp::IsTrue | UnaryOp::IsNull => DataType::boolean(false),
    }
}

impl Expr {
    pub fn data_type(&self) -> (r: DataType)
        ensures
            r == expr_type(*self),
        decreases *self,
    {
        match self {
            Expr::ColumnRef { data_type, .. } => *data_type,
            Expr::Constant { data_type, .. } => *data_type,
            Expr::Unary { op, arg } => unary_result_type(*op, arg.data_type()),
            Expr::Binary { left, right, .. } => {
                let l = left.data_type();
                let r = right.data_type();
                DataType::boolean(l.nullable || r.nullable)
            },
        }
    }
}

/// The value of an expression on a row whose values are indexed by column id;
/// an id outside the row reads as null.
pub open spec fn eval(e: Expr, row: Seq<Value>) -> Value
    decreases e,
{
    match e {
        Expr::ColumnRef { id, .. } => if id < row.len() {
            row[id as int]
        } else {
            Value::Null
        },
        Expr::Constant { value, .. } => value,
        Expr::Unary { op, arg } => apply_unary(op, eval(*arg, row)),
        Expr::Binary { op, left, right } => apply_binary(op, eval(*left, row), eval(*right, row)),
    }
}

/// Constant folding: an operator whose operands fold to constants is replaced by
/// the constant it computes, with the operator's type.
pub open spec fn folded(e: Expr) -> Expr
    decreases e,
{
    match e {
        Expr::Unary { op, arg } => {
            let a = folded(*arg);
            match a {
                Expr::Constant { value, data_type } => Expr::Constant {
                    value: apply_unary(op, value),
                    data_type: unary_type(op, data_type),
                },
                _ => Expr::Unary { op, arg: Box::new(a) },
            }
        },
        Expr::Binary { op, left, right } => {
            let l = folded(*left);
            let r = folded(*right);
            match (l, r) {
                (
                    Expr::Constant { value: lv, data_type: lt },
                    Expr::Constant { value: rv, data_type: rt },
                ) => Expr::Constant {
                    value: apply_binary(op, lv, rv),
                    data_type: binary_type(lt, rt),
                },
                _ => Expr::Binary { op, left: Box::new(l), right: Box::new(r) },
            }
        },
        _ => e,
    }
}

/// Whether some operator in the expression has only constant operands.
pub open spec fn has_foldable(e: Expr) -> bool
    decreases e,
{
    match e {
        Expr::Unary { op, arg } => *arg is Constant || has_foldable(*arg),
        Expr::Binary { op, left, right } => (*left is Constant && *right is Constant)
            || has_foldable(*left) || has_foldable(*right),
        _ => false,
    }
}

/// Folds every operator whose operands are constants.
pub fn fold(e: &Expr) -> (r: Expr)
    ensures
        r == folded(*e),
    decreases *e,
{
    match e {
        Expr::Unary { op, arg } => {
            let a = fold(arg);
            match a {
                Expr::Constant { value, data_type } => Expr::Constant {
                    value: eval_unary(*op, value),
                    data_type: unary_result_type(*op, data_type),
                },
                _ => Expr::Unary { op: *op, arg: Box::new(a) },
            }
        },
        Expr::Binary { op, left, right } => {
            let l = fold(left);
            let r = fold(right);
            match (l, r) {
                (
                    Expr::Constant { value: lv, data_type: lt },
                    Expr::Constant { value: rv, data_type: rt },
                ) => Expr::Constant {
                    value: eval_binary(*op, lv, rv),
                    data_type: DataType::boolean(lt.nullable || rt.nullable),
                },
                (l, r) => Expr::Binary { op: *op, left: Box::new(l), right: Box::new(r) },
            }
        },
        Expr::ColumnRef { id, data_type } => Expr::ColumnRef { id: *id, data_type: *data_type },
        Expr::Constant { value, data_type } => Expr::Constant { value: *value, data_type: *data_type },
    }
}

/// Folding never changes the value of an expression on any row, nor its type.
pub proof fn lemma_fold_sound(e: Expr, row: Seq<Value>)
    ensures
        eval(folded(e), row) == eval(e, row),
        expr_type(folded(e)) == expr_type(e),
    decreases e,
{
    match e {
        Expr::Unary { op, arg } => {
            lemma_fold_sound(*arg, row);
        },
        Expr::Binary { op, left, right } => {
            lemma_fold_sound(*left, row);
            lemma_fold_sound(*right, row);
        },
        _ => {},
    }
}

/// Folding is idempotent: folding a folded expression gives it back.
pub proof fn lemma_fold_idempotent(e: Expr)
    ensures
        folded(folded(e)) == folded(e),
    decreases e,
{
    match e {
        Expr::Unary { op, arg } => {
            lemma_fold_idempotent(*arg);
        },
        Expr::Binary { op, left, right } => {
            lemma_fold_idempotent(*left);
            lemma_fold_idempotent(*right);
        },
        _ => {},
    }
}

/// An expression with no operator over constants alone is left as it is.
pub proof fn lemma_fold_keeps_unfoldable(e: Expr)
    requires
        !has_foldable(e),
    ensures
        folded(e) == e,
    decreases e,
{
    match e {
        Expr::Unary { op, arg } => {
            lemma_fold_keeps_unfoldable(*arg);
        },
        Expr::Binary { op, left, right } => {
            lemma_fold_keeps_unfoldable(*left);
            lemma_fold_keeps_unfoldable(*right);
        },
        _ => {},
    }
}

/// A predicate turned into a non-null boolean: a non-null boolean stays, a
/// nullable boolean is tested with `is_true`, an integer is cast to boolean
/// first; text cannot be cast and gives `None`.
pub open spec fn non_null_boolean(e: Expr) -> Option<Expr> {
    let t = expr_type(e);
    match t.kind {
        TypeKind::Boolean => if t.nullable {
            Some(Expr::Unary { op: UnaryOp::IsTrue, arg: Box::new(e) })
        } else {
            Some(e)
        },
        TypeKind::Int => Some(
            Expr::Unary {
                op: UnaryOp::IsTrue,
                arg: Box::new(Expr::Unary { op: UnaryOp::ToBoolean, arg: Box::new(e) }),
            },
        ),
        TypeKind::Text => None,
    }
}

pub fn cast_to_non_null_boolean(e: Expr) -> (r: Option<Expr>)
    ensures
        r == non_null_boolean(e),
        r matches Some(c) ==> expr_type(c) == DataType::spec_boolean(false),
{
    let t = e.data_type();
    match t.kind {
        TypeKind::Boolean => if t.nullable {
            Some(Expr::Unary { op: UnaryOp::IsTrue, arg: Box::new(e) })
        } else {
            Some(e)
        },
        TypeKind::Int => Some(
            Expr::Unary {
                op: UnaryOp::IsTrue,
                arg: Box::new(Expr::Unary { op: UnaryOp::ToBoolean, arg: Box::new(e) }),
            },
        ),
        TypeKind::Text => None,
    }
}

} // verus!
