use vstd::prelude::*;

use crate::expr::DataType;

verus! {

/// What the registry knows of one logical column.
#[derive(Debug)]
pub enum ColumnEntry {
    /// A column of a base table; `path_indices` is set for a sub-field reached
    /// through a composite value.
    BaseTableColumn {
        table_index: usize,
        column_name: String,
        data_type: DataType,
        path_indices: Option<Vec<usize>>,
    },
    /// A column computed by an expression of the query.
    DerivedColumn { alias: String, data_type: DataType },
}

/// One field of a table's storage schema.
#[derive(Debug)]
pub struct TableField {
    pub name: String,
    pub data_type: DataType,
}

/// A table bound in the query, with the catalog it comes from.
#[derive(Debug)]
pub struct TableEntry {
    pub catalog: String,
    pub name: String,
    pub schema: Vec<TableField>,
}

/// The registry of one build: column index `i` is described by `columns[i]`,
/// table index `t` by `tables[t]`.
#[derive(Debug)]
pub struct Metadata {
    pub columns: Vec<ColumnEntry>,
    pub tables: Vec<TableEntry>,
}

pub open spec fn entry_name(c: ColumnEntry) -> Seq<char> {
    match c {
        ColumnEntry::BaseTableColumn { column_name, .. } => column_name@,
        ColumnEntry::DerivedColumn { alias, .. } => alias@,
    }
}

pub open spec fn entry_type(c: ColumnEntry) -> DataType {
    match c {
        ColumnEntry::BaseTableColumn { data_type, .. } => data_type,
        ColumnEntry::DerivedColumn { data_type, .. } => data_type,
    }
}

pub open spec fn entry_path(c: ColumnEntry) -> Option<Seq<usize>> {
    match c {
        ColumnEntry::BaseTableColumn { path_indices: Some(p), .. } => Some(p@),
        _ => None,
    }
}

/// `i` is the first position of the table schema whose field is named `name`.
pub open spec fn is_first_table_position(schema: Seq<TableField>, name: Seq<char>, i: int) -> bool {
    &&& 0 <= i < schema.len()
    &&& schema[i].name@ == name
    &&& forall|j: int| 0 <= j < i ==> schema[j].name@ != name
}

pub open spec fn table_position(schema: Seq<TableField>, name: Seq<char>) -> Option<int> {
    if exists|i: int| is_first_table_position(schema, name, i) {
        Some(choose|i: int| is_first_table_position(schema, name, i))
    } else {
        None
    }
}

impl ColumnEntry {
    pub fn name(&self) -> (r: &String)
        ensures
            r@ == entry_name(*self),
    {
        match self {
            ColumnEntry::BaseTableColumn { column_name, .. } => column_name,
            ColumnEntry::DerivedColumn { alias, .. } => alias,
        }
    }

    pub fn data_type(&self) -> (r: DataType)
        ensures
            r == entry_type(*self),
    {
        match self {
            ColumnEntry::BaseTableColumn { data_type, .. } => *data_type,
            ColumnEntry::DerivedColumn { data_type, .. } => *data_type,
        }
    }

    /// Whether the column is a sub-field of a composite value.
    pub fn is_inner_column(&self) -> (r: bool)
        ensures
            r == entry_path(*self) is Some,
    {
        match self {
            ColumnEntry::BaseTableColumn { path_indices: Some(_), .. } => true,
            _ => false,
        }
    }
}

impl Metadata {
    pub fn column(&self, index: usize) -> (r: Option<&ColumnEntry>)
        ensures
            index < self.columns@.len() ==> r == Some(&self.columns@[index as int]),
            index >= self.columns@.len() ==> r is None,
    {
        if index < self.columns.len() {
            Some(&self.columns[index])
        } else {
            None
        }
    }

    pub fn table(&self, index: usize) -> (r: Option<&TableEntry>)
        ensures
            index < self.tables@.len() ==> r == Some(&self.tables@[index as int]),
            index >= self.tables@.len() ==> r is None,
    {
        if index < self.tables.len() {
            Some(&self.tables[index])
        } else {
            None
        }
    }
}

/// Looks a field of a table schema up by name; the first match wins.
pub fn table_index_of(schema: &Vec<TableField>, name: &String) -> (r: Option<usize>)
    ensures
        match r {
            Some(i) => table_position(schema@, name@) == Some(i as int),
            None => table_position(schema@, name@) is None,
        },
{
    let mut i: usize = 0;
    while i < schema.len()
        invariant
            i <= schema@.len(),
            forall|j: int| 0 <= j < i ==> schema@[j].name@ != name@,
        decreases schema@.len() - i,
    {
        if schema[i].name == *name {
            assert(is_first_table_position(schema@, name@, i as int));
            let ghost k = choose|k: int| is_first_table_position(schema@, name@, k);
            assert(i == k) by {
                if k < i {
                } else if i < k {
                    assert(schema@[i as int].name@ != name@);
                }
            }
            return Some(i);
        }
        i = i + 1;
    }
    None
}

} // verus!
