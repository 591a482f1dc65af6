use vstd::prelude::*;

use crate::schema::FieldName;

verus! {

/// Why a physical plan could not be built.
#[derive(Clone, Debug)]
pub enum BuildError {
    /// The relational tree holds an operator that has no physical form; carries
    /// the operator's debug form.
    UnsupportedOperator(String),
    /// A column index that an expression references is absent from the schema
    /// it is bound against.
    ColumnNotFound(usize),
    /// A field that an operator names is absent from its input's schema.
    FieldNotFound(FieldName),
    /// An aggregate or unnest call stands where a plain scalar is expected.
    NotAScalar,
    /// An aggregate item is not an aggregate function call.
    ExpectedAggregateFunction,
    /// An aggregate function argument is not a direct column reference.
    AggregateArgumentNotColumn,
    /// A final aggregate whose input is neither a partial aggregate nor an
    /// exchange over one; carries the input's name.
    InvalidAggregateInput(&'static str),
    /// An aggregate in `Initial` mode reached the builder.
    InitialAggregateMode,
    /// A predicate whose type cannot be cast to boolean.
    CannotCastToBoolean,
    /// A table index with no entry in the metadata.
    UnknownTable(usize),
    /// A column index with no entry in the metadata.
    UnknownColumn(usize),
    /// A column name that the table's schema does not hold.
    TableColumnNotFound(usize),
    /// A prewhere split with no predicate.
    EmptyPrewhere,
    /// A schema position past the largest index the machine can hold.
    SchemaTooWide,
    /// A partial aggregate under an exchange that emits no field to key it by.
    EmptyAggregate,
}

} // verus!
