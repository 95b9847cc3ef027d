//! Loading private inputs, binding public ones, and copying a value into a region.

use crate::field::Fe;
use crate::layout::{Equality, Exposure, Trace};
use crate::value::{Cell, CellValue, Column, Error, Value, MAX_ADVICE};
use vstd::prelude::*;

verus! {

/// One row of cells that holds `v` in `column` and nothing else.
pub open spec fn single_row(column: Column, v: Fe) -> Seq<Option<Fe>> {
    Seq::new(3, |i: int| if i == column.index { Some(v) } else { None })
}

/// Loads a private input into a one-row region of its own, in `column`.
/// The new cell is where the value comes from, so no copy constraint is added.
pub fn load_private(trace: &mut Trace, column: Column, value: &Value) -> (r: Result<
    CellValue,
    Error,
>)
    requires
        old(trace).wf(),
        old(trace).has_room(1),
        value.wf(),
        column.index < MAX_ADVICE,
    ensures
        final(trace).wf(),
        final(trace).enabled == old(trace).enabled,
        final(trace).copies == old(trace).copies,
        final(trace).exposed == old(trace).exposed,
        match *value {
            Value::Known(v) => {
                &&& r == Ok::<CellValue, Error>(
                    CellValue { cell: Cell { column, row: old(trace).num_rows() as usize }, value: *value },
                )
                &&& final(trace).cells@ == old(trace).cells@ + single_row(column, v)
            },
            Value::Unknown => {
                &&& r == Err::<CellValue, Error>(Error::Synthesis)
                &&& final(trace).cells == old(trace).cells
            },
        },
{
    match value {
        Value::Known(v) => {
            let row = trace.region(1);
            let cell = trace.assign_value(column, row, v);
            assert(trace.cells@ =~= old(trace).cells@ + single_row(column, *v));
            Ok(CellValue::new(cell, *value))
        },
        Value::Unknown => Err(Error::Synthesis),
    }
}

/// Binds the cell of `var` to row `row` of the public input.
pub fn constrain_public(trace: &mut Trace, var: &CellValue, row: usize)
    ensures
        final(trace).cells == old(trace).cells,
        final(trace).enabled == old(trace).enabled,
        final(trace).copies == old(trace).copies,
        final(trace).exposed@ == old(trace).exposed@.push(Exposure { cell: var.cell, row }),
{
    trace.constrain_instance(var.cell, row)
}

/// Assigns the value of `source` into `column` at `row` and constrains the new
/// cell to equal the cell of `source`.
pub fn copy(trace: &mut Trace, column: Column, row: usize, source: &CellValue) -> (r: Result<
    CellValue,
    Error,
>)
    requires
        old(trace).wf(),
        source.value.wf(),
        column.index < MAX_ADVICE,
        row < old(trace).num_rows(),
    ensures
        final(trace).wf(),
        final(trace).enabled == old(trace).enabled,
        final(trace).exposed == old(trace).exposed,
        match source.value {
            Value::Known(v) => {
                &&& r == Ok::<CellValue, Error>(
                    CellValue { cell: Cell { column, row }, value: source.value },
                )
                &&& final(trace).cells@ == old(trace).cells@.update(
                    row * 3 + column.index,
                    Some(v),
                )
                &&& final(trace).copies@ == old(trace).copies@.push(
                    Equality { left: Cell { column, row }, right: source.cell },
                )
            },
            Value::Unknown => {
                &&& r == Err::<CellValue, Error>(Error::Synthesis)
                &&& final(trace).cells == old(trace).cells
                &&& final(trace).copies == old(trace).copies
            },
        },
{
    match trace.assign_advice(column, row, &source.value) {
        Ok(cell) => {
            trace.constrain_equal(cell, source.cell);
            Ok(CellValue::new(cell, source.value))
        },
        Err(e) => Err(e),
    }
}

} // verus!
