use plan_builder::builder::PhysicalPlanBuilder;
use plan_builder::error::BuildError;
use plan_builder::expr::{BinaryOp, DataType, Expr, TypeKind, UnaryOp, Value};
use plan_builder::metadata::{ColumnEntry, Metadata, TableEntry, TableField};
use plan_builder::plan::{FragmentKind, PhysicalPlan};
use plan_builder::projection::Projection;
use plan_builder::relational::{
    Aggregate, AggregateMode, Exchange, Join, JoinType, Prewhere, RelOperator, SExpr, Scan,
    ScalarItem, SortItem,
};
use plan_builder::scalar::{AggregateCall, ScalarExpr};
use plan_builder::schema::{Field, FieldName};

fn int_type() -> DataType {
    DataType { kind: TypeKind::Int, nullable: false }
}

fn text() -> DataType {
    DataType { kind: TypeKind::Text, nullable: false }
}

fn boolean() -> DataType {
    DataType { kind: TypeKind::Boolean, nullable: false }
}

fn base(table: usize, name: &str, data_type: DataType) -> ColumnEntry {
    ColumnEntry::BaseTableColumn {
        table_index: table,
        column_name: name.to_string(),
        data_type,
        path_indices: None,
    }
}

fn table(fields: &[(&str, DataType)]) -> TableEntry {
    TableEntry {
        catalog: "default".to_string(),
        name: "t".to_string(),
        schema: fields
            .iter()
            .map(|(n, t)| TableField { name: n.to_string(), data_type: *t })
            .collect(),
    }
}

fn node(plan: RelOperator) -> SExpr {
    SExpr { plan, cardinality: 10 }
}

fn scan(table_index: usize, columns: Vec<usize>) -> SExpr {
    node(RelOperator::Scan(Scan {
        table_index,
        columns,
        push_down_predicates: None,
        limit: None,
        order_by: None,
        prewhere: None,
    }))
}

fn col(index: usize, data_type: DataType) -> ScalarExpr {
    ScalarExpr::BoundColumnRef { index, data_type }
}

fn field(index: usize, data_type: DataType) -> Field {
    Field { name: FieldName::Column(index), data_type }
}

/// Columns 0 (name: Text) and 1 (id: Int) of table 0; column 2 (id: Int) of table 1.
fn join_metadata() -> Metadata {
    Metadata {
        columns: vec![base(0, "name", text()), base(0, "id", int_type()), base(1, "id", int_type())],
        tables: vec![table(&[("name", text()), ("id", int_type())]), table(&[("id", int_type())])],
    }
}

fn join_tree() -> SExpr {
    node(RelOperator::Join(
        Join {
            left_conditions: vec![col(1, int_type())],
            right_conditions: vec![col(2, int_type())],
            non_equi_conditions: vec![],
            join_type: JoinType::Inner,
            marker_index: None,
            from_correlated_subquery: false,
            contain_runtime_filter: false,
        },
        Box::new(scan(0, vec![0, 1])),
        Box::new(scan(1, vec![2])),
    ))
}

fn plan_id(p: &PhysicalPlan) -> Option<u32> {
    match p {
        PhysicalPlan::TableScan { plan_id, .. }
        | PhysicalPlan::HashJoin { plan_id, .. }
        | PhysicalPlan::EvalScalar { plan_id, .. }
        | PhysicalPlan::Unnest { plan_id, .. }
        | PhysicalPlan::Filter { plan_id, .. }
        | PhysicalPlan::AggregatePartial { plan_id, .. }
        | PhysicalPlan::AggregateFinal { plan_id, .. }
        | PhysicalPlan::Sort { plan_id, .. }
        | PhysicalPlan::Limit { plan_id, .. }
        | PhysicalPlan::UnionAll { plan_id, .. }
        | PhysicalPlan::RuntimeFilterSource { plan_id, .. } => Some(*plan_id),
        PhysicalPlan::Exchange { .. } => None,
    }
}

#[test]
fn join_schema_is_probe_then_build() {
    let mut builder = PhysicalPlanBuilder::new(join_metadata());
    let plan = builder.build(&join_tree()).unwrap();
    assert_eq!(
        plan.output_schema(),
        vec![field(0, text()), field(1, int_type()), field(2, int_type())]
    );
    match &plan {
        PhysicalPlan::HashJoin { probe, build, probe_keys, build_keys, .. } => {
            assert_eq!(probe.output_schema(), vec![field(0, text()), field(1, int_type())]);
            assert_eq!(build.output_schema(), vec![field(2, int_type())]);
            assert!(matches!(probe_keys[0], Expr::ColumnRef { id: 1, .. }));
            assert!(matches!(build_keys[0], Expr::ColumnRef { id: 0, .. }));
        }
        other => panic!("expected a hash join, got {:?}", other),
    }
}

#[test]
fn join_ids_follow_construction_order() {
    let mut builder = PhysicalPlanBuilder::new(join_metadata());
    let plan = builder.build(&join_tree()).unwrap();
    match &plan {
        PhysicalPlan::HashJoin { plan_id, probe, build, stat_info, .. } => {
            assert_eq!(crate::plan_id(build), Some(0));
            assert_eq!(crate::plan_id(probe), Some(1));
            assert_eq!(*plan_id, 2);
            assert_eq!(stat_info.unwrap().estimated_rows, 10);
        }
        other => panic!("expected a hash join, got {:?}", other),
    }
    assert_eq!(builder.next_plan_id, 3);
}

#[test]
fn sort_and_limit_take_their_id_before_their_child() {
    let meta = join_metadata();
    let tree = node(RelOperator::Limit(
        Some(5),
        2,
        Box::new(node(RelOperator::Sort(
            vec![SortItem { index: 1, asc: true, nulls_first: false }],
            Some(5),
            Box::new(scan(0, vec![0, 1])),
        ))),
    ));
    let mut builder = PhysicalPlanBuilder::new(meta);
    let plan = builder.build(&tree).unwrap();
    match &plan {
        PhysicalPlan::Limit { plan_id, input, limit, offset, .. } => {
            assert_eq!(*plan_id, 0);
            assert_eq!(*limit, Some(5));
            assert_eq!(*offset, 2);
            match &**input {
                PhysicalPlan::Sort { plan_id, input, order_by, .. } => {
                    assert_eq!(*plan_id, 1);
                    assert_eq!(order_by[0].order_by, 1);
                    assert!(order_by[0].asc);
                    assert_eq!(crate::plan_id(input), Some(2));
                }
                other => panic!("expected a sort, got {:?}", other),
            }
        }
        other => panic!("expected a limit, got {:?}", other),
    }
}

#[test]
fn flat_projection_is_ascending_by_position() {
    // colA is declared first in the registry but stands after colB in the table.
    let meta = Metadata {
        columns: vec![base(0, "colA", int_type()), base(0, "colB", text())],
        tables: vec![table(&[("colB", text()), ("x", int_type()), ("colA", int_type())])],
    };
    let mut builder = PhysicalPlanBuilder::new(meta);
    let plan = builder.build(&scan(0, vec![0, 1])).unwrap();
    match &plan {
        PhysicalPlan::TableScan { source, .. } => {
            match &source.push_downs.as_ref().unwrap().projection {
                Projection::Columns(v) => assert_eq!(v, &vec![0, 2]),
                other => panic!("expected flat projection, got {:?}", other),
            }
            assert_eq!(source.schema, vec![field(1, text()), field(0, int_type())]);
        }
        other => panic!("expected a scan, got {:?}", other),
    }
}

#[test]
fn nested_column_gives_inner_projection() {
    let meta = Metadata {
        columns: vec![
            base(0, "a", int_type()),
            ColumnEntry::BaseTableColumn {
                table_index: 0,
                column_name: "b:c".to_string(),
                data_type: int_type(),
                path_indices: Some(vec![1, 0]),
            },
        ],
        tables: vec![table(&[("a", int_type()), ("b", int_type())])],
    };
    let mut builder = PhysicalPlanBuilder::new(meta);
    let plan = builder.build(&scan(0, vec![0, 1])).unwrap();
    match &plan {
        PhysicalPlan::TableScan { source, .. } => {
            match &source.push_downs.as_ref().unwrap().projection {
                Projection::InnerColumns(v) => {
                    assert_eq!(v, &vec![(0, vec![0]), (1, vec![1, 0])]);
                }
                other => panic!("expected inner projection, got {:?}", other),
            }
        }
        other => panic!("expected a scan, got {:?}", other),
    }
}

#[test]
fn prewhere_splits_columns() {
    let meta = Metadata {
        columns: vec![base(0, "a", int_type()), base(0, "b", int_type()), base(0, "c", boolean())],
        tables: vec![table(&[("a", int_type()), ("b", int_type()), ("c", boolean())])],
    };
    let tree = node(RelOperator::Scan(Scan {
        table_index: 0,
        columns: vec![0, 1, 2],
        push_down_predicates: Some(vec![col(2, boolean())]),
        limit: Some(7),
        order_by: Some(vec![SortItem { index: 1, asc: false, nulls_first: true }]),
        prewhere: Some(Prewhere {
            output_columns: vec![0, 1],
            prewhere_columns: vec![0],
            predicates: vec![ScalarExpr::Binary {
                op: BinaryOp::Lt,
                left: Box::new(col(0, int_type())),
                right: Box::new(ScalarExpr::Constant { value: Value::Int(3), data_type: int_type() }),
            }],
        }),
    }));
    let mut builder = PhysicalPlanBuilder::new(meta);
    let plan = builder.build(&tree).unwrap();
    match &plan {
        PhysicalPlan::TableScan { source, name_mapping, .. } => {
            assert_eq!(name_mapping, &vec![0, 1]);
            assert_eq!(source.schema, vec![field(0, int_type()), field(1, int_type())]);
            let pd = source.push_downs.as_ref().unwrap();
            assert_eq!(pd.limit, Some(7));
            assert!(matches!(pd.filter, Some(Expr::ColumnRef { id: 2, .. })));
            assert!(matches!(pd.order_by[0], (Expr::ColumnRef { id: 1, .. }, false, true)));
            let pw = pd.prewhere.as_ref().unwrap();
            assert!(matches!(&pw.output_columns, Projection::Columns(v) if v == &vec![0, 1]));
            assert!(matches!(&pw.prewhere_columns, Projection::Columns(v) if v == &vec![0]));
            assert!(matches!(&pw.remain_columns, Projection::Columns(v) if v == &vec![1, 2]));
            assert!(matches!(
                &pw.filter,
                Expr::Binary { op: BinaryOp::Lt, .. }
            ));
        }
        other => panic!("expected a scan, got {:?}", other),
    }
}

#[test]
fn empty_prewhere_is_rejected() {
    let meta = join_metadata();
    let tree = node(RelOperator::Scan(Scan {
        table_index: 0,
        columns: vec![0, 1],
        push_down_predicates: None,
        limit: None,
        order_by: None,
        prewhere: Some(Prewhere { output_columns: vec![0], prewhere_columns: vec![1], predicates: vec![] }),
    }));
    let mut builder = PhysicalPlanBuilder::new(meta);
    assert!(matches!(builder.build(&tree), Err(BuildError::EmptyPrewhere)));
}

#[test]
fn unknown_table_is_rejected() {
    let mut builder = PhysicalPlanBuilder::new(join_metadata());
    assert!(matches!(builder.build(&scan(9, vec![0])), Err(BuildError::UnknownTable(9))));
}

#[test]
fn filter_keeps_schema_and_casts_predicates() {
    let tree = node(RelOperator::Filter(
        vec![
            col(1, int_type()),
            ScalarExpr::Binary {
                op: BinaryOp::Eq,
                left: Box::new(col(1, int_type())),
                right: Box::new(ScalarExpr::Constant { value: Value::Int(1), data_type: int_type() }),
            },
        ],
        Box::new(scan(0, vec![0, 1])),
    ));
    let mut builder = PhysicalPlanBuilder::new(join_metadata());
    let plan = builder.build(&tree).unwrap();
    assert_eq!(plan.output_schema(), vec![field(0, text()), field(1, int_type())]);
    match &plan {
        PhysicalPlan::Filter { predicates, .. } => {
            assert_eq!(predicates.len(), 2);
            match &predicates[0] {
                Expr::Unary { op: UnaryOp::IsTrue, arg } => {
                    assert!(matches!(&**arg, Expr::Unary { op: UnaryOp::ToBoolean, .. }));
                }
                other => panic!("unexpected predicate {:?}", other),
            }
            assert!(matches!(&predicates[1], Expr::Binary { op: BinaryOp::Eq, .. }));
        }
        other => panic!("expected a filter, got {:?}", other),
    }
}

#[test]
fn text_predicate_cannot_be_cast() {
    let tree = node(RelOperator::Filter(vec![col(0, text())], Box::new(scan(0, vec![0, 1]))));
    let mut builder = PhysicalPlanBuilder::new(join_metadata());
    assert!(matches!(builder.build(&tree), Err(BuildError::CannotCastToBoolean)));
}

#[test]
fn missing_column_is_reported() {
    let tree = node(RelOperator::Filter(vec![col(2, int_type())], Box::new(scan(0, vec![0, 1]))));
    let mut builder = PhysicalPlanBuilder::new(join_metadata());
    assert!(matches!(builder.build(&tree), Err(BuildError::ColumnNotFound(2))));
}

#[test]
fn eval_scalar_appends_fields() {
    let tree = node(RelOperator::EvalScalar(
        vec![ScalarItem {
            scalar: ScalarExpr::Binary {
                op: BinaryOp::Lt,
                left: Box::new(col(1, int_type())),
                right: Box::new(ScalarExpr::Constant { value: Value::Int(4), data_type: int_type() }),
            },
            index: 5,
        }],
        Box::new(scan(0, vec![0, 1])),
    ));
    let mut builder = PhysicalPlanBuilder::new(join_metadata());
    let plan = builder.build(&tree).unwrap();
    assert!(matches!(plan, PhysicalPlan::EvalScalar { .. }));
    assert_eq!(
        plan.output_schema(),
        vec![field(0, text()), field(1, int_type()), field(5, boolean())]
    );
}

#[test]
fn unnest_item_adds_unnest_node() {
    let tree = node(RelOperator::EvalScalar(
        vec![
            ScalarItem { scalar: col(0, text()), index: 5 },
            ScalarItem { scalar: ScalarExpr::Unnest(Box::new(col(1, int_type()))), index: 6 },
        ],
        Box::new(scan(0, vec![0, 1])),
    ));
    let mut builder = PhysicalPlanBuilder::new(join_metadata());
    let plan = builder.build(&tree).unwrap();
    match &plan {
        PhysicalPlan::Unnest { plan_id, input, offsets, .. } => {
            assert_eq!(offsets, &vec![3]);
            assert_eq!(*plan_id, 2);
            match &**input {
                PhysicalPlan::EvalScalar { plan_id, exprs, .. } => {
                    assert_eq!(*plan_id, 1);
                    assert!(matches!(exprs[1], (Expr::ColumnRef { id: 1, .. }, 6)));
                }
                other => panic!("expected an eval scalar, got {:?}", other),
            }
        }
        other => panic!("expected an unnest, got {:?}", other),
    }
}

fn count_of(arg: ScalarExpr, index: usize) -> ScalarItem {
    ScalarItem {
        scalar: ScalarExpr::AggregateFunction(AggregateCall {
            func_name: "count".to_string(),
            args: vec![arg],
            params: vec![],
            return_type: int_type(),
        }),
        index,
    }
}

fn partial_over_hash_exchange() -> SExpr {
    node(RelOperator::Aggregate(
        Aggregate {
            mode: AggregateMode::Partial,
            group_items: vec![ScalarItem { scalar: col(1, int_type()), index: 1 }],
            aggregate_functions: vec![count_of(col(0, text()), 7)],
            limit: None,
        },
        Box::new(node(RelOperator::Exchange(
            Exchange::Hash(vec![col(1, int_type())]),
            Box::new(scan(0, vec![0, 1])),
        ))),
    ))
}

#[test]
fn partial_aggregate_moves_under_hash_exchange() {
    let mut builder = PhysicalPlanBuilder::new(join_metadata());
    let plan = builder.build(&partial_over_hash_exchange()).unwrap();
    match &plan {
        PhysicalPlan::Exchange { input, kind, keys } => {
            assert_eq!(*kind, FragmentKind::Normal);
            let width = input.output_schema().len();
            assert_eq!(width, 2);
            assert_eq!(keys.len(), 1);
            match &keys[0] {
                Expr::ColumnRef { id, data_type } => {
                    assert_eq!(*id, width - 1);
                    assert_eq!(*data_type, int_type());
                }
                other => panic!("unexpected key {:?}", other),
            }
            match &**input {
                PhysicalPlan::AggregatePartial { agg_funcs, group_by, input, .. } => {
                    assert_eq!(group_by, &vec![1]);
                    assert_eq!(agg_funcs[0].args, vec![0]);
                    assert_eq!(agg_funcs[0].arg_indices, vec![0]);
                    assert_eq!(agg_funcs[0].output_column, 7);
                    assert!(matches!(**input, PhysicalPlan::TableScan { .. }));
                }
                other => panic!("expected a partial aggregate, got {:?}", other),
            }
        }
        other => panic!("expected an exchange, got {:?}", other),
    }
}

#[test]
fn final_aggregate_binds_against_pre_group_schema() {
    let tree = node(RelOperator::Aggregate(
        Aggregate {
            mode: AggregateMode::Final,
            group_items: vec![ScalarItem { scalar: col(1, int_type()), index: 1 }],
            aggregate_functions: vec![count_of(col(0, text()), 7)],
            limit: Some(3),
        },
        Box::new(partial_over_hash_exchange()),
    ));
    let mut builder = PhysicalPlanBuilder::new(join_metadata());
    let plan = builder.build(&tree).unwrap();
    match &plan {
        PhysicalPlan::AggregateFinal { before_group_by_schema, agg_funcs, limit, .. } => {
            assert_eq!(before_group_by_schema, &vec![field(0, text()), field(1, int_type())]);
            assert_eq!(agg_funcs[0].args, vec![0]);
            assert_eq!(*limit, Some(3));
        }
        other => panic!("expected a final aggregate, got {:?}", other),
    }
    assert_eq!(plan.output_schema(), vec![field(1, int_type()), field(7, int_type())]);
}

#[test]
fn final_aggregate_needs_partial_input() {
    let tree = node(RelOperator::Aggregate(
        Aggregate { mode: AggregateMode::Final, group_items: vec![], aggregate_functions: vec![], limit: None },
        Box::new(scan(0, vec![0, 1])),
    ));
    let mut builder = PhysicalPlanBuilder::new(join_metadata());
    assert!(matches!(builder.build(&tree), Err(BuildError::InvalidAggregateInput("TableScan"))));
}

#[test]
fn initial_aggregate_mode_is_rejected() {
    let tree = node(RelOperator::Aggregate(
        Aggregate { mode: AggregateMode::Initial, group_items: vec![], aggregate_functions: vec![], limit: None },
        Box::new(scan(0, vec![0, 1])),
    ));
    let mut builder = PhysicalPlanBuilder::new(join_metadata());
    assert!(matches!(builder.build(&tree), Err(BuildError::InitialAggregateMode)));
}

#[test]
fn aggregate_argument_must_be_a_column() {
    let tree = node(RelOperator::Aggregate(
        Aggregate {
            mode: AggregateMode::Partial,
            group_items: vec![],
            aggregate_functions: vec![count_of(
                ScalarExpr::Constant { value: Value::Int(1), data_type: int_type() },
                7,
            )],
            limit: None,
        },
        Box::new(scan(0, vec![0, 1])),
    ));
    let mut builder = PhysicalPlanBuilder::new(join_metadata());
    assert!(matches!(builder.build(&tree), Err(BuildError::AggregateArgumentNotColumn)));
}

#[test]
fn exchange_kinds_map_to_fragment_kinds() {
    let cases = [
        (Exchange::Random, FragmentKind::Init),
        (Exchange::Broadcast, FragmentKind::Expansive),
        (Exchange::Merge, FragmentKind::Merge),
    ];
    for (exchange, expected) in cases {
        let tree = node(RelOperator::Exchange(exchange, Box::new(scan(0, vec![0, 1]))));
        let mut builder = PhysicalPlanBuilder::new(join_metadata());
        match builder.build(&tree).unwrap() {
            PhysicalPlan::Exchange { kind, keys, .. } => {
                assert_eq!(kind, expected);
                assert!(keys.is_empty());
            }
            other => panic!("expected an exchange, got {:?}", other),
        }
    }
}

/// Left: a (column 0, Int) and b (column 1, Text); right: x (2, Int) and y (3, Text).
fn union_metadata() -> Metadata {
    Metadata {
        columns: vec![base(0, "a", int_type()), base(0, "b", text()), base(1, "x", int_type()), base(1, "y", text())],
        tables: vec![table(&[("a", int_type()), ("b", text())]), table(&[("x", int_type()), ("y", text())])],
    }
}

#[test]
fn union_all_takes_fields_from_left() {
    let tree = node(RelOperator::UnionAll(
        vec![(0, 2), (1, 3)],
        Box::new(scan(0, vec![0, 1])),
        Box::new(scan(1, vec![2, 3])),
    ));
    let mut builder = PhysicalPlanBuilder::new(union_metadata());
    let plan = builder.build(&tree).unwrap();
    assert_eq!(plan.output_schema(), vec![field(0, int_type()), field(1, text())]);
    match &plan {
        PhysicalPlan::UnionAll { plan_id, left, right, .. } => {
            assert_eq!(crate::plan_id(left), Some(0));
            assert_eq!(*plan_id, 1);
            assert_eq!(crate::plan_id(right), Some(2));
        }
        other => panic!("expected a union, got {:?}", other),
    }
}

#[test]
fn union_all_fails_on_absent_left_name() {
    let tree = node(RelOperator::UnionAll(
        vec![(5, 2), (1, 3)],
        Box::new(scan(0, vec![0, 1])),
        Box::new(scan(1, vec![2, 3])),
    ));
    let mut builder = PhysicalPlanBuilder::new(union_metadata());
    assert!(matches!(
        builder.build(&tree),
        Err(BuildError::FieldNotFound(FieldName::Column(5)))
    ));
}

#[test]
fn runtime_filter_source_binds_both_sides() {
    let tree = node(RelOperator::RuntimeFilterSource(
        vec![(10, col(1, int_type()))],
        vec![(10, col(2, int_type())), (11, col(2, int_type()))],
        Box::new(scan(0, vec![0, 1])),
        Box::new(scan(1, vec![2])),
    ));
    let mut builder = PhysicalPlanBuilder::new(join_metadata());
    let plan = builder.build(&tree).unwrap();
    assert_eq!(plan.output_schema(), vec![field(0, text()), field(1, int_type())]);
    match &plan {
        PhysicalPlan::RuntimeFilterSource { plan_id, left_runtime_filters, right_runtime_filters, .. } => {
            assert_eq!(*plan_id, 2);
            assert_eq!(left_runtime_filters.len(), 1);
            assert!(matches!(left_runtime_filters[0], (10, Expr::ColumnRef { id: 1, .. })));
            assert_eq!(right_runtime_filters.len(), 1);
            assert!(matches!(right_runtime_filters[0], (10, Expr::ColumnRef { id: 0, .. })));
        }
        other => panic!("expected a runtime filter source, got {:?}", other),
    }
}

#[test]
fn dummy_scan_has_one_row_and_one_column() {
    let mut builder = PhysicalPlanBuilder::new(join_metadata());
    let plan = builder.build(&node(RelOperator::DummyTableScan)).unwrap();
    match &plan {
        PhysicalPlan::TableScan { stat_info, source, .. } => {
            assert_eq!(stat_info.unwrap().estimated_rows, 1);
            assert_eq!(source.schema.len(), 1);
        }
        other => panic!("expected a scan, got {:?}", other),
    }
}

#[test]
fn unsupported_operator_is_reported() {
    let mut builder = PhysicalPlanBuilder::new(join_metadata());
    match builder.build(&node(RelOperator::Other("Window".to_string()))) {
        Err(BuildError::UnsupportedOperator(name)) => assert_eq!(name, "Window"),
        other => panic!("expected an error, got {:?}", other),
    }
}
