use plan_builder::expr::{cast_to_non_null_boolean, fold, BinaryOp, DataType, Expr, TypeKind, UnaryOp, Value};
use plan_builder::scalar::{rebind, rebind_and_fold, ScalarExpr};
use plan_builder::schema::{index_of, Field, FieldName};

fn int_type() -> DataType {
    DataType { kind: TypeKind::Int, nullable: false }
}

fn field(index: usize) -> Field {
    Field { name: FieldName::Column(index), data_type: int_type() }
}

#[test]
fn rebinding_without_constants_only_remaps_columns() {
    let s = ScalarExpr::Binary {
        op: BinaryOp::Lt,
        left: Box::new(ScalarExpr::BoundColumnRef { index: 7, data_type: int_type() }),
        right: Box::new(ScalarExpr::BoundColumnRef { index: 3, data_type: int_type() }),
    };
    let schema = vec![field(3), field(7)];
    let e = rebind_and_fold(&s, &schema).unwrap();
    match e {
        Expr::Binary { op: BinaryOp::Lt, left, right } => {
            assert!(matches!(*left, Expr::ColumnRef { id: 1, .. }));
            assert!(matches!(*right, Expr::ColumnRef { id: 0, .. }));
        }
        other => panic!("unexpected {:?}", other),
    }
}

#[test]
fn folding_computes_constant_operators() {
    let e = Expr::Binary {
        op: BinaryOp::And,
        left: Box::new(Expr::Binary {
            op: BinaryOp::Lt,
            left: Box::new(Expr::Constant { value: Value::Int(1), data_type: int_type() }),
            right: Box::new(Expr::Constant { value: Value::Int(2), data_type: int_type() }),
        }),
        right: Box::new(Expr::ColumnRef { id: 0, data_type: int_type() }),
    };
    let f = fold(&e);
    match &f {
        Expr::Binary { op: BinaryOp::And, left, .. } => {
            assert!(matches!(**left, Expr::Constant { value: Value::Boolean(true), .. }));
        }
        other => panic!("unexpected {:?}", other),
    }
    let g = Expr::Unary {
        op: UnaryOp::Not,
        arg: Box::new(Expr::Constant { value: Value::Boolean(true), data_type: DataType::boolean(false) }),
    };
    assert!(matches!(fold(&g), Expr::Constant { value: Value::Boolean(false), .. }));
}

#[test]
fn folding_twice_changes_nothing() {
    let e = Expr::Binary {
        op: BinaryOp::Or,
        left: Box::new(Expr::Unary {
            op: UnaryOp::IsNull,
            arg: Box::new(Expr::Constant { value: Value::Null, data_type: int_type() }),
        }),
        right: Box::new(Expr::Binary {
            op: BinaryOp::Eq,
            left: Box::new(Expr::ColumnRef { id: 2, data_type: int_type() }),
            right: Box::new(Expr::Constant { value: Value::Int(5), data_type: int_type() }),
        }),
    };
    let once = fold(&e);
    let twice = fold(&once);
    assert_eq!(format!("{:?}", once), format!("{:?}", twice));
}

#[test]
fn rebinding_fails_on_absent_column() {
    let s = ScalarExpr::BoundColumnRef { index: 9, data_type: int_type() };
    assert!(rebind(&s, &vec![field(1)]).is_err());
}

#[test]
fn first_matching_field_wins() {
    assert_eq!(index_of(&vec![field(4), field(2), field(4)], FieldName::Column(4)), Some(0));
    assert_eq!(index_of(&vec![field(4)], FieldName::GroupByKey), None);
}

#[test]
fn non_null_boolean_cast() {
    let b = Expr::ColumnRef { id: 0, data_type: DataType::boolean(false) };
    assert!(matches!(cast_to_non_null_boolean(b), Some(Expr::ColumnRef { .. })));
    let nb = Expr::ColumnRef { id: 0, data_type: DataType::boolean(true) };
    assert!(matches!(cast_to_non_null_boolean(nb), Some(Expr::Unary { op: UnaryOp::IsTrue, .. })));
    let t = Expr::ColumnRef { id: 0, data_type: DataType { kind: TypeKind::Text, nullable: false } };
    assert!(cast_to_non_null_boolean(t).is_none());
}
