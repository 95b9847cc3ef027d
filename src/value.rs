//! Positions, witnessed values and the errors of synthesis.

use crate::field::Fe;
use vstd::prelude::*;

verus! {

/// How many advice columns a trace has room for.
pub const MAX_ADVICE: usize = 3;

/// A value that is known while a witness is synthesised and unknown while only
/// the circuit's shape is derived.
#[derive(Clone, Copy, Debug, PartialEq, Eq, Structural)]
pub enum Value {
    Unknown,
    Known(Fe),
}

/// Why synthesis stopped.
#[derive(Clone, Copy, Debug, PartialEq, Eq, Structural)]
pub enum Error {
    /// A value was needed but is unknown in this pass.
    Synthesis,
}

impl Value {
    /// A known value is a canonical field element.
    pub open spec fn wf(self) -> bool {
        match self {
            Value::Known(v) => v.wf(),
            Value::Unknown => true,
        }
    }

    /// The element, or the synthesis error when it is unknown.
    pub fn known(&self) -> (r: Result<Fe, Error>)
        ensures
            match *self {
                Value::Known(v) => r == Ok::<Fe, Error>(v),
                Value::Unknown => r == Err::<Fe, Error>(Error::Synthesis),
            },
    {
        match self {
            Value::Known(v) => Ok(*v),
            Value::Unknown => Err(Error::Synthesis),
        }
    }
}

/// An advice column, by its index.
#[derive(Clone, Copy, Debug, PartialEq, Eq, Hash, Structural)]
pub struct Column {
    pub index: usize,
}

/// A switch that turns on one gate; it carries that gate's index.
#[derive(Clone, Copy, Debug, PartialEq, Eq, Structural)]
pub struct Selector {
    pub index: usize,
}

/// A position in the trace: an advice column and an absolute row.
#[derive(Clone, Copy, Debug, PartialEq, Eq, Hash, Structural)]
pub struct Cell {
    pub column: Column,
    pub row: usize,
}

/// A cell together with the value that was witnessed into it.
#[derive(Clone, Copy, Debug, PartialEq, Eq, Structural)]
pub struct CellValue {
    pub cell: Cell,
    pub value: Value,
}

impl CellValue {
    pub fn new(cell: Cell, value: Value) -> (r: CellValue)
        ensures
            r.cell == cell,
            r.value == value,
    {
        CellValue { cell, value }
    }

    pub fn cell(&self) -> (r: Cell)
        ensures
            r == self.cell,
    {
        self.cell
    }

    pub fn value(&self) -> (r: Value)
        ensures
            r == self.value,
    {
        self.value
    }
}

} // verus!
