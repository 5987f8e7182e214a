//! Query results: one normalized shape for every engine's rows.

use vstd::prelude::*;

use crate::value::Attempt;
use crate::value::GenValue;
use crate::value::SpecValue;
use crate::value::coerce_cell;
use crate::value::spec_coerce;

verus! {

/// The uniform result of a query: column names (duplicates from joins are
/// preserved positionally), rows of generic values aligned positionally
/// with the columns, and the row count.
#[derive(Debug, Clone, PartialEq, Eq)]
pub struct QueryResult {
    pub columns: Vec<String>,
    pub rows: Vec<Vec<GenValue>>,
    pub row_count: usize,
}

impl QueryResult {
    /// The shape every constructed result has: the row count equals the
    /// number of rows, and every row is exactly as long as the column
    /// list.
    pub open spec fn wf(self) -> bool {
        &&& self.row_count == self.rows@.len()
        &&& forall|i: int|
            0 <= i < self.rows@.len() ==> (#[trigger] self.rows@[i])@.len() == self.columns@.len()
    }

    /// The result of a query that yielded no rows: a success, not an
    /// error. Column names are read off the first returned row, so with
    /// zero rows they are not recoverable and the column list is empty.
    pub fn empty() -> (r: QueryResult)
        ensures
            r.columns@.len() == 0,
            r.rows@.len() == 0,
            r.row_count == 0,
            r.wf(),
    {
        QueryResult { columns: Vec::new(), rows: Vec::new(), row_count: 0 }
    }

    /// Materializes a full result: for every fetched row, every cell's
    /// decode cascade is resolved by [`coerce_cell`]. The row count equals
    /// the number of fetched rows and every materialized row is as long
    /// as the column list.
    pub fn from_cells(columns: Vec<String>, cells: &Vec<Vec<Vec<Attempt>>>) -> (r: QueryResult)
        requires
            forall|i: int|
                0 <= i < cells@.len() ==> (#[trigger] cells@[i])@.len() == columns@.len(),
        ensures
            r.wf(),
            r.columns@ == columns@,
            r.row_count == cells@.len(),
            r.rows@.len() == cells@.len(),
            forall|i: int, j: int|
                0 <= i < cells@.len() && 0 <= j < columns@.len() ==> (#[trigger] r.rows@[i]@[j])@
                    == spec_coerce(cells@[i]@[j]@),
    {
        let row_count = cells.len();
        let mut rows: Vec<Vec<GenValue>> = Vec::new();
        let mut i: usize = 0;
        while i < row_count
            invariant
                row_count == cells@.len(),
                i <= row_count,
                rows@.len() == i,
                forall|k: int|
                    0 <= k < cells@.len() ==> (#[trigger] cells@[k])@.len() == columns@.len(),
                forall|k: int| 0 <= k < i ==> (#[trigger] rows@[k])@.len() == columns@.len(),
                forall|k: int, j: int|
                    0 <= k < i && 0 <= j < columns@.len() ==> (#[trigger] rows@[k]@[j])@
                        == spec_coerce(cells@[k]@[j]@),
            decreases row_count - i,
        {
            let cell_row = &cells[i];
            let width = cell_row.len();
            let mut row: Vec<GenValue> = Vec::new();
            let mut j: usize = 0;
            while j < width
                invariant
                    width == cell_row@.len(),
                    j <= width,
                    row@.len() == j,
                    forall|l: int|
                        0 <= l < j ==> (#[trigger] row@[l])@ == spec_coerce(cell_row@[l]@),
                decreases width - j,
            {
                row.push(coerce_cell(&cell_row[j]));
                j = j + 1;
            }
            rows.push(row);
            i = i + 1;
        }
        QueryResult { columns, rows, row_count }
    }

    /// The document engine's fixed two-column summary: one row per
    /// collection, holding the collection's name and its document count.
    pub fn mongo_summary(entries: &Vec<(String, u64)>) -> (r: QueryResult)
        ensures
            r.wf(),
            r.columns@.len() == 2,
            r.columns@[0]@ == "collection"@,
            r.columns@[1]@ == "count"@,
            r.row_count == entries@.len(),
            r.rows@.len() == entries@.len(),
            forall|i: int|
                0 <= i < entries@.len() ==> {
                    &&& (#[trigger] r.rows@[i])@.len() == 2
                    &&& r.rows@[i]@[0]@ == SpecValue::Text(entries@[i].0@)
                    &&& r.rows@[i]@[1]@ == SpecValue::UInt(entries@[i].1 as nat)
                },
    {
        let mut columns: Vec<String> = Vec::new();
        columns.push(String::from_str("collection"));
        columns.push(String::from_str("count"));
        let n = entries.len();
        let mut rows: Vec<Vec<GenValue>> = Vec::new();
        let mut i: usize = 0;
        while i < n
            invariant
                n == entries@.len(),
                i <= n,
                rows@.len() == i,
                forall|k: int|
                    0 <= k < i ==> {
                        &&& (#[trigger] rows@[k])@.len() == 2
                        &&& rows@[k]@[0]@ == SpecValue::Text(entries@[k].0@)
                        &&& rows@[k]@[1]@ == SpecValue::UInt(entries@[k].1 as nat)
                    },
            decreases n - i,
        {
            let (name, count) = &entries[i];
            let mut row: Vec<GenValue> = Vec::new();
            row.push(GenValue::Text(name.clone()));
            row.push(GenValue::UInt(*count));
            rows.push(row);
            i = i + 1;
        }
        QueryResult { columns, rows, row_count: n }
    }
}

} // verus!
