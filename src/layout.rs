//! The constraint system a circuit configures once, and the trace that
//! synthesis fills in region by region, with the check that a trace satisfies
//! every gate, copy constraint and public input.

use crate::field::{modulus, Fe};
use crate::gate::{bool_poly, lemma_bool_gate_rejects, eval_bool, eval_mux, eval_subtract, mux_poly, subtract_poly, Gate};
use crate::value::{Cell, Column, Error, Selector, Value, MAX_ADVICE};
use vstd::prelude::*;

verus! {

/// Columns, gates and equality permissions, fixed at configuration time.
/// Gate `i` is switched on by `Selector { index: i }`.
pub struct ConstraintSystem {
    pub num_advice: usize,
    pub gates: Vec<Gate>,
    /// `equality[c]` holds when advice column `c` may take part in copy constraints.
    pub equality: Vec<bool>,
    /// Whether the instance column may take part in copy constraints.
    pub instance_equality: bool,
}

impl ConstraintSystem {
    pub open spec fn wf(&self) -> bool {
        &&& self.num_advice <= MAX_ADVICE
        &&& self.equality@.len() == MAX_ADVICE
        &&& forall|i: int| 0 <= i < self.gates@.len() ==> #[trigger] self.gates@[i].reads_within(
            self.num_advice as int,
        )
    }

    /// A constraint system with no columns and no gates.
    pub fn new() -> (r: ConstraintSystem)
        ensures
            r.wf(),
            r.num_advice == 0,
            r.gates@.len() == 0,
            forall|i: int| 0 <= i < MAX_ADVICE ==> !#[trigger] r.equality@[i],
            !r.instance_equality,
    {
        ConstraintSystem {
            num_advice: 0,
            gates: Vec::new(),
            equality: vec![false, false, false],
            instance_equality: false,
        }
    }

    /// Declares the next advice column.
    pub fn advice_column(&mut self) -> (r: Column)
        requires
            old(self).wf(),
            old(self).num_advice < MAX_ADVICE,
        ensures
            final(self).wf(),
            r.index == old(self).num_advice,
            final(self).num_advice == old(self).num_advice + 1,
            final(self).gates == old(self).gates,
            final(self).equality == old(self).equality,
            final(self).instance_equality == old(self).instance_equality,
    {
        let r = Column { index: self.num_advice };
        self.num_advice = self.num_advice + 1;
        proof {
            assert forall|i: int| 0 <= i < self.gates@.len() implies #[trigger] self.gates@[i].reads_within(
                self.num_advice as int,
            ) by {
                assert(old(self).gates@[i].reads_within(old(self).num_advice as int));
            }
        }
        r
    }

    /// Lets an advice column take part in copy constraints.
    pub fn enable_equality(&mut self, column: Column)
        requires
            old(self).wf(),
            column.index < old(self).num_advice,
        ensures
            final(self).wf(),
            final(self).num_advice == old(self).num_advice,
            final(self).gates == old(self).gates,
            final(self).equality@ == old(self).equality@.update(column.index as int, true),
            final(self).instance_equality == old(self).instance_equality,
    {
        self.equality.set(column.index, true);
    }

    /// Lets the instance column take part in copy constraints.
    pub fn enable_instance_equality(&mut self)
        requires
            old(self).wf(),
        ensures
            final(self).wf(),
            final(self).num_advice == old(self).num_advice,
            final(self).gates == old(self).gates,
            final(self).equality == old(self).equality,
            final(self).instance_equality,
    {
        self.instance_equality = true;
    }

    /// Declares a gate and returns the selector that switches it on.
    pub fn create_gate(&mut self, gate: Gate) -> (r: Selector)
        requires
            old(self).wf(),
            gate.reads_within(old(self).num_advice as int),
        ensures
            final(self).wf(),
            r.index == old(self).gates@.len(),
            final(self).num_advice == old(self).num_advice,
            final(self).gates@ == old(self).gates@.push(gate),
            final(self).equality == old(self).equality,
            final(self).instance_equality == old(self).instance_equality,
    {
        let r = Selector { index: self.gates.len() };
        self.gates.push(gate);
        proof {
            assert forall|i: int| 0 <= i < self.gates@.len() implies #[trigger] self.gates@[i].reads_within(
                self.num_advice as int,
            ) by {
                if i < old(self).gates@.len() {
                    assert(self.gates@[i] == old(self).gates@[i]);
                }
            }
        }
        r
    }
}

proof fn lemma_row_index(row: int, col: int, len: int)
    requires
        0 <= row < len / 3,
        0 <= col < 3,
        len >= 0,
    ensures
        row * 3 + col < len,
{
}

/// A gate switched on at an absolute row.
#[derive(Clone, Copy, Debug, PartialEq, Eq, Structural)]
pub struct Activation {
    pub selector: Selector,
    pub row: usize,
}

/// A copy constraint: the two cells hold one value.
#[derive(Clone, Copy, Debug, PartialEq, Eq, Structural)]
pub struct Equality {
    pub left: Cell,
    pub right: Cell,
}

/// A cell bound to a row of the public input.
#[derive(Clone, Copy, Debug, PartialEq, Eq, Structural)]
pub struct Exposure {
    pub cell: Cell,
    pub row: usize,
}

/// The witness data of one synthesis pass: the advice cells, row by row with
/// `MAX_ADVICE` cells to a row, and the selectors, copy constraints and
/// public-input bindings that were recorded.
pub struct Trace {
    pub cells: Vec<Option<Fe>>,
    pub enabled: Vec<Activation>,
    pub copies: Vec<Equality>,
    pub exposed: Vec<Exposure>,
}

impl Trace {
    pub open spec fn num_rows(&self) -> int {
        self.cells@.len() as int / 3
    }

    pub open spec fn wf(&self) -> bool {
        &&& self.cells@.len() % 3 == 0
        &&& forall|i: int| 0 <= i < self.cells@.len() ==> match #[trigger] self.cells@[i] {
            Some(v) => v.wf(),
            None => true,
        }
    }

    /// Room for `rows` more rows without the cell count leaving `usize`.
    pub open spec fn has_room(&self, rows: int) -> bool {
        self.cells@.len() + 3 * rows <= usize::MAX
    }

    /// What the cell at `column`, `row` holds; `None` when unassigned or off the trace.
    pub open spec fn at(&self, column: Column, row: int) -> Option<Fe> {
        if column.index < 3 && 0 <= row < self.num_rows() {
            self.cells@[row * 3 + column.index]
        } else {
            None
        }
    }

    pub open spec fn cell_at(&self, c: Cell) -> Option<Fe> {
        self.at(c.column, c.row as int)
    }

    /// The identity holds at `row`, every cell it reads being assigned.
    pub open spec fn gate_holds(&self, gate: Gate, row: int) -> bool {
        match gate {
            Gate::Bool { s } => match self.at(s, row) {
                Some(v) => bool_poly(v.val()) == 0,
                None => false,
            },
            Gate::Mux { a, b, s } => match (
                self.at(a, row),
                self.at(b, row),
                self.at(s, row),
                self.at(a, row + 1),
            ) {
                (Some(x), Some(y), Some(z), Some(o)) => mux_poly(x.val(), y.val(), z.val(), o.val())
                    == 0,
                _ => false,
            },
            Gate::Subtract { lhs, rhs } => match (
                self.at(lhs, row),
                self.at(rhs, row),
                self.at(lhs, row + 1),
            ) {
                (Some(x), Some(y), Some(o)) => subtract_poly(x.val(), y.val(), o.val()) == 0,
                _ => false,
            },
        }
    }

    pub open spec fn activation_holds(&self, cs: &ConstraintSystem, act: Activation) -> bool {
        act.selector.index < cs.gates@.len() && self.gate_holds(
            cs.gates@[act.selector.index as int],
            act.row as int,
        )
    }

    pub open spec fn equality_holds(&self, cs: &ConstraintSystem, e: Equality) -> bool {
        &&& e.left.column.index < MAX_ADVICE
        &&& e.right.column.index < MAX_ADVICE
        &&& cs.equality@[e.left.column.index as int]
        &&& cs.equality@[e.right.column.index as int]
        &&& self.cell_at(e.left) is Some
        &&& self.cell_at(e.left) == self.cell_at(e.right)
    }

    pub open spec fn exposure_holds(
        &self,
        cs: &ConstraintSystem,
        x: Exposure,
        instance: Seq<Fe>,
    ) -> bool {
        &&& cs.instance_equality
        &&& x.row < instance.len()
        &&& self.cell_at(x.cell) == Some(instance[x.row as int])
    }

    /// Every switched-on gate holds, every copy constraint joins equal assigned
    /// cells in columns that allow it, and every bound cell equals its public input.
    pub open spec fn satisfied(&self, cs: &ConstraintSystem, instance: Seq<Fe>) -> bool {
        &&& forall|i: int|
            0 <= i < self.enabled@.len() ==> self.activation_holds(cs, #[trigger] self.enabled@[i])
        &&& forall|i: int|
            0 <= i < self.copies@.len() ==> self.equality_holds(cs, #[trigger] self.copies@[i])
        &&& forall|i: int|
            0 <= i < self.exposed@.len() ==> self.exposure_holds(
                cs,
                #[trigger] self.exposed@[i],
                instance,
            )
    }

    /// An empty trace.
    pub fn new() -> (r: Trace)
        ensures
            r.wf(),
            r.cells@.len() == 0,
            r.enabled@.len() == 0,
            r.copies@.len() == 0,
            r.exposed@.len() == 0,
    {
        Trace { cells: Vec::new(), enabled: Vec::new(), copies: Vec::new(), exposed: Vec::new() }
    }

    /// What the cell at `column`, `row` holds.
    pub fn value_at(&self, column: Column, row: usize) -> (r: Option<Fe>)
        requires
            self.wf(),
        ensures
            r == self.at(column, row as int),
            r matches Some(v) ==> v.wf(),
    {
        if column.index < 3 && row < self.cells.len() / 3 {
            let i: usize = row * 3 + column.index;
            self.cells[i]
        } else {
            None
        }
    }

    /// Opens a region of `height` fresh rows at the end of the trace and
    /// returns its first row.
    pub fn region(&mut self, height: usize) -> (start: usize)
        requires
            old(self).wf(),
            old(self).has_room(height as int),
        ensures
            final(self).wf(),
            start == old(self).num_rows(),
            final(self).cells@ == old(self).cells@ + Seq::new(
                (3 * height) as nat,
                |i: int| None::<Fe>,
            ),
            final(self).enabled == old(self).enabled,
            final(self).copies == old(self).copies,
            final(self).exposed == old(self).exposed,
    {
        let start = self.cells.len() / 3;
        let n: usize = 3 * height;
        let mut k: usize = 0;
        while k < n
            invariant
                k <= n,
                n == 3 * height,
                old(self).cells@.len() + n <= usize::MAX,
                self.cells@ == old(self).cells@ + Seq::new(k as nat, |i: int| None::<Fe>),
                self.enabled == old(self).enabled,
                self.copies == old(self).copies,
                self.exposed == old(self).exposed,
            decreases n - k,
        {
            self.cells.push(None);
            k = k + 1;
            assert(self.cells@ =~= old(self).cells@ + Seq::new(k as nat, |i: int| None::<Fe>));
        }
        assert forall|i: int| 0 <= i < self.cells@.len() implies match #[trigger] self.cells@[i] {
            Some(v) => v.wf(),
            None => true,
        } by {
            if i < old(self).cells@.len() {
                assert(self.cells@[i] == old(self).cells@[i]);
            }
        }
        start
    }

    /// Writes a known element into a cell of the trace.
    pub fn assign_value(&mut self, column: Column, row: usize, v: &Fe) -> (r: Cell)
        requires
            old(self).wf(),
            v.wf(),
            column.index < MAX_ADVICE,
            row < old(self).num_rows(),
        ensures
            final(self).wf(),
            r == (Cell { column, row }),
            final(self).cells@ == old(self).cells@.update(row * 3 + column.index, Some(*v)),
            final(self).enabled == old(self).enabled,
            final(self).copies == old(self).copies,
            final(self).exposed == old(self).exposed,
    {
        let len: usize = self.cells.len();
        proof {
            lemma_row_index(row as int, column.index as int, len as int);
        }
        let i: usize = row * 3 + column.index;
        self.cells.set(i, Some(*v));
        assert forall|j: int| 0 <= j < self.cells@.len() implies match #[trigger] self.cells@[j] {
            Some(x) => x.wf(),
            None => true,
        } by {
            if j != i {
                assert(self.cells@[j] == old(self).cells@[j]);
            }
        }
        Cell { column, row }
    }

    /// Writes a witnessed value into a cell of the trace; fails when the value is unknown.
    pub fn assign_advice(&mut self, column: Column, row: usize, value: &Value) -> (r: Result<
        Cell,
        Error,
    >)
        requires
            old(self).wf(),
            value.wf(),
            column.index < MAX_ADVICE,
            row < old(self).num_rows(),
        ensures
            final(self).wf(),
            final(self).enabled == old(self).enabled,
            final(self).copies == old(self).copies,
            final(self).exposed == old(self).exposed,
            match *value {
                Value::Known(v) => {
                    &&& r == Ok::<Cell, Error>(Cell { column, row })
                    &&& final(self).cells@ == old(self).cells@.update(
                        row * 3 + column.index,
                        Some(v),
                    )
                },
                Value::Unknown => {
                    &&& r == Err::<Cell, Error>(Error::Synthesis)
                    &&& final(self).cells == old(self).cells
                },
            },
    {
        match value {
            Value::Known(v) => Ok(self.assign_value(column, row, v)),
            Value::Unknown => Err(Error::Synthesis),
        }
    }

    /// Switches on the selector's gate at `row`.
    pub fn enable_selector(&mut self, selector: Selector, row: usize)
        ensures
            final(self).cells == old(self).cells,
            final(self).enabled@ == old(self).enabled@.push(Activation { selector, row }),
            final(self).copies == old(self).copies,
            final(self).exposed == old(self).exposed,
    {
        self.enabled.push(Activation { selector, row });
    }

    /// Records that two cells hold one value.
    pub fn constrain_equal(&mut self, left: Cell, right: Cell)
        ensures
            final(self).cells == old(self).cells,
            final(self).enabled == old(self).enabled,
            final(self).copies@ == old(self).copies@.push(Equality { left, right }),
            final(self).exposed == old(self).exposed,
    {
        self.copies.push(Equality { left, right });
    }

    /// Binds a cell to row `row` of the public input.
    pub fn constrain_instance(&mut self, cell: Cell, row: usize)
        ensures
            final(self).cells == old(self).cells,
            final(self).enabled == old(self).enabled,
            final(self).copies == old(self).copies,
            final(self).exposed@ == old(self).exposed@.push(Exposure { cell, row }),
    {
        self.exposed.push(Exposure { cell, row });
    }

    fn check_gate(&self, gate: &Gate, row: usize) -> (r: bool)
        requires
            self.wf(),
        ensures
            r == self.gate_holds(*gate, row as int),
    {
        if row >= self.cells.len() / 3 {
            return false;
        }
        match gate {
            Gate::Bool { s } => match self.value_at(*s, row) {
                Some(v) => eval_bool(&v).is_zero(),
                None => false,
            },
            Gate::Mux { a, b, s } => {
                let x = self.value_at(*a, row);
                let y = self.value_at(*b, row);
                let z = self.value_at(*s, row);
                let o = self.value_at(*a, row + 1);
                match (x, y, z, o) {
                    (Some(x), Some(y), Some(z), Some(o)) => eval_mux(&x, &y, &z, &o).is_zero(),
                    _ => false,
                }
            },
            Gate::Subtract { lhs, rhs } => {
                let x = self.value_at(*lhs, row);
                let y = self.value_at(*rhs, row);
                let o = self.value_at(*lhs, row + 1);
                match (x, y, o) {
                    (Some(x), Some(y), Some(o)) => eval_subtract(&x, &y, &o).is_zero(),
                    _ => false,
                }
            },
        }
    }

    fn check_equality(&self, cs: &ConstraintSystem, e: &Equality) -> (r: bool)
        requires
            self.wf(),
            cs.wf(),
        ensures
            r == self.equality_holds(cs, *e),
    {
        if e.left.column.index >= MAX_ADVICE || e.right.column.index >= MAX_ADVICE {
            return false;
        }
        if !cs.equality[e.left.column.index] || !cs.equality[e.right.column.index] {
            return false;
        }
        match (
            self.value_at(e.left.column, e.left.row),
            self.value_at(e.right.column, e.right.row),
        ) {
            (Some(x), Some(y)) => x == y,
            _ => false,
        }
    }

    fn check_exposure(&self, cs: &ConstraintSystem, x: &Exposure, instance: &Vec<Fe>) -> (r: bool)
        requires
            self.wf(),
        ensures
            r == self.exposure_holds(cs, *x, instance@),
    {
        if !cs.instance_equality || x.row >= instance.len() {
            return false;
        }
        match self.value_at(x.cell.column, x.cell.row) {
            Some(v) => v == instance[x.row],
            None => false,
        }
    }

    /// Whether the trace satisfies the constraint system with the given public input.
    pub fn verify(&self, cs: &ConstraintSystem, instance: &Vec<Fe>) -> (r: bool)
        requires
            self.wf(),
            cs.wf(),
        ensures
            r == self.satisfied(cs, instance@),
    {
        let mut i: usize = 0;
        while i < self.enabled.len()
            invariant
                self.wf(),
                cs.wf(),
                i <= self.enabled@.len(),
                forall|j: int| 0 <= j < i ==> self.activation_holds(cs, #[trigger] self.enabled@[j]),
            decreases self.enabled@.len() - i,
        {
            let act = self.enabled[i];
            if act.selector.index >= cs.gates.len() || !self.check_gate(
                &cs.gates[act.selector.index],
                act.row,
            ) {
                assert(!self.activation_holds(cs, self.enabled@[i as int]));
                return false;
            }
            i = i + 1;
        }
        let mut i: usize = 0;
        while i < self.copies.len()
            invariant
                self.wf(),
                cs.wf(),
                i <= self.copies@.len(),
                forall|j: int| 0 <= j < i ==> self.equality_holds(cs, #[trigger] self.copies@[j]),
            decreases self.copies@.len() - i,
        {
            if !self.check_equality(cs, &self.copies[i]) {
                assert(!self.equality_holds(cs, self.copies@[i as int]));
                return false;
            }
            i = i + 1;
        }
        let mut i: usize = 0;
        while i < self.exposed.len()
            invariant
                self.wf(),
                cs.wf(),
                i <= self.exposed@.len(),
                forall|j: int|
                    0 <= j < i ==> self.exposure_holds(cs, #[trigger] self.exposed@[j], instance@),
            decreases self.exposed@.len() - i,
        {
            if !self.check_exposure(cs, &self.exposed[i], instance) {
                assert(!self.exposure_holds(cs, self.exposed@[i as int], instance@));
                return false;
            }
            i = i + 1;
        }
        true
    }
}

/// A trace whose boolean gate is on at a row where the checked cell holds a
/// value in `[2, 2^127)` or in `(-2^127, -1]` is not satisfied,
/// whatever the public input.
pub proof fn lemma_non_boolean_rejected(
    trace: &Trace,
    cs: &ConstraintSystem,
    instance: Seq<Fe>,
    i: int,
    s: Column,
    v: Fe,
)
    requires
        0 <= i < trace.enabled@.len(),
        trace.enabled@[i].selector.index < cs.gates@.len(),
        cs.gates@[trace.enabled@[i].selector.index as int] == (Gate::Bool { s }),
        trace.at(s, trace.enabled@[i].row as int) == Some(v),
        v.wf(),
        2 <= v.val() < 0x8000_0000_0000_0000_0000_0000_0000_0000 || modulus()
            - 0x8000_0000_0000_0000_0000_0000_0000_0000 < v.val(),
    ensures
        !trace.satisfied(cs, instance),
{
    lemma_bool_gate_rejects(v.val());
    assert(!trace.activation_holds(cs, trace.enabled@[i]));
}

/// A trace in which the two cells of a copy constraint hold different values
/// (one of them changed without the other) is not satisfied.
pub proof fn lemma_copy_mismatch_rejected(
    trace: &Trace,
    cs: &ConstraintSystem,
    instance: Seq<Fe>,
    i: int,
)
    requires
        0 <= i < trace.copies@.len(),
        trace.cell_at(trace.copies@[i].left) != trace.cell_at(trace.copies@[i].right),
    ensures
        !trace.satisfied(cs, instance),
{
    assert(!trace.equality_holds(cs, trace.copies@[i]));
}

} // verus!
