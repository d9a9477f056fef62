//! Plain value types describing a statement and the rows it returns.

use vstd::prelude::*;

verus! {

/// One result row, eagerly materialized in server-returned order.
#[derive(Clone, Debug, PartialEq, Eq)]
pub struct Row {
    pub values: Vec<i64>,
}

/// A statement together with its named parameters; stateless, consumed per
/// call, with no implicit retry.
#[derive(Clone, Debug)]
pub struct QuerySpecification {
    pub statement: String,
    pub parameters: Vec<(String, i64)>,
}

/// Applies a row mapper to every row, in server-returned order: element `i`
/// of the result is an output the mapper admits for row `i`.
pub fn map_rows<U>(rows: &Vec<Row>, f: impl Fn(&Row) -> U) -> (result: Vec<U>)
    requires
        forall|i: int| 0 <= i < rows@.len() ==> call_requires(f, (&rows@[i],)),
    ensures
        result@.len() == rows@.len(),
        forall|i: int|
            0 <= i < rows@.len() ==> call_ensures(f, (&rows@[i],), #[trigger] result@[i]),
{
    let mut result: Vec<U> = Vec::new();
    let mut j: usize = 0;
    while j < rows.len()
        invariant
            forall|i: int| 0 <= i < rows@.len() ==> call_requires(f, (&rows@[i],)),
            j <= rows@.len(),
            j == result@.len(),
            forall|i: int| 0 <= i < j ==> call_ensures(f, (&rows@[i],), #[trigger] result@[i]),
        decreases rows@.len() - j,
    {
        result.push(f(&rows[j]));
        j = j + 1;
    }
    result
}

} // verus!
