//! The columns of a record that are bound to a statement.

use vstd::prelude::*;
use crate::cursor::clone_record;
use crate::settings::ALL_COLUMNS;

verus! {

/// Number of leading fields that are used of a record with `len` fields:
/// all of them where `cols_qty` is -1, none where it is otherwise not
/// positive, and else `cols_qty` of them, as far as the record has them.
pub open spec fn columns_used(len: nat, cols_qty: i64) -> nat {
    if cols_qty == ALL_COLUMNS {
        len
    } else if cols_qty <= 0 {
        0
    } else if cols_qty < len {
        cols_qty as nat
    } else {
        len
    }
}

/// The leading fields of `record` that are bound to a statement.
pub fn select_columns(record: &Vec<String>, cols_qty: i64) -> (values: Vec<String>)
    ensures
        values.deep_view() == record.deep_view().take(
            columns_used(record.deep_view().len(), cols_qty) as int,
        ),
{
    if cols_qty == ALL_COLUMNS {
        let values = clone_record(record);
        return values;
    }
    let mut values: Vec<String> = Vec::new();
    let mut count_col: usize = 0;
    while count_col < record.len() && cols_qty > 0 && (count_col as u64) < cols_qty as u64
        invariant
            count_col <= record.len(),
            count_col <= columns_used(record@.len(), cols_qty),
            cols_qty != ALL_COLUMNS,
            values@ == record@.take(count_col as int),
        decreases record.len() - count_col,
    {
        values.push(record[count_col].clone());
        count_col = count_col + 1;
    }
    values
}

} // verus!
