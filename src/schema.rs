use vstd::prelude::*;

use crate::expr::DataType;

verus! {

/// The name of a physical field: the logical column index it carries, or the
/// key that a partial aggregate emits for its group-by columns.
#[derive(Clone, Copy, Debug, PartialEq, Eq, Structural)]
pub enum FieldName {
    Column(usize),
    GroupByKey,
}

#[derive(Clone, Copy, Debug, PartialEq, Eq, Structural)]
pub struct Field {
    pub name: FieldName,
    pub data_type: DataType,
}

/// `i` is the first position of `schema` that holds a field named `name`.
pub open spec fn is_first_position(schema: Seq<Field>, name: FieldName, i: int) -> bool {
    &&& 0 <= i < schema.len()
    &&& schema[i].name == name
    &&& forall|j: int| 0 <= j < i ==> schema[j].name != name
}

/// The first position of a field named `name`, if there is one.
pub open spec fn position_of(schema: Seq<Field>, name: FieldName) -> Option<int> {
    if exists|i: int| is_first_position(schema, name, i) {
        Some(choose|i: int| is_first_position(schema, name, i))
    } else {
        None
    }
}

pub proof fn lemma_first_position_unique(schema: Seq<Field>, name: FieldName, i: int, k: int)
    requires
        is_first_position(schema, name, i),
        is_first_position(schema, name, k),
    ensures
        i == k,
{
}

/// Looks a field up by name; the first match wins.
pub fn index_of(schema: &Vec<Field>, name: FieldName) -> (r: Option<usize>)
    ensures
        match r {
            Some(i) => position_of(schema@, name) == Some(i as int),
            None => position_of(schema@, name) is None,
        },
{
    let mut i: usize = 0;
    while i < schema.len()
        invariant
            i <= schema@.len(),
            forall|j: int| 0 <= j < i ==> schema@[j].name != name,
        decreases schema@.len() - i,
    {
        if schema[i].name == name {
            assert(is_first_position(schema@, name, i as int));
            let ghost k = choose|k: int| is_first_position(schema@, name, k);
            proof {
                lemma_first_position_unique(schema@, name, i as int, k);
            }
            return Some(i);
        }
        i = i + 1;
    }
    None
}

} // verus!
