//! The multiplexer chip: a boolean identity on the selector and the identity
//! `out = a + selector * (b - a)`, with the region that one `mux` call assigns.

use crate::field::Fe;
use crate::gate::{mux_select, Gate};
use crate::layout::{Activation, ConstraintSystem, Equality, Trace};
use crate::value::{Cell, CellValue, Column, Error, Selector, Value, MAX_ADVICE};
use vstd::prelude::*;

verus! {

/// The columns and selectors of the multiplexer chip.
#[derive(Clone, Copy, Debug)]
pub struct MuxConfig {
    /// `a`, `b` and the selector, in that order; the output goes below `a`.
    pub advice: [Column; 3],
    pub s_mux: Selector,
    pub s_bool: Selector,
}

impl MuxConfig {
    /// Three distinct advice columns within the trace's width.
    pub open spec fn wf(&self) -> bool {
        &&& self.advice[0].index < MAX_ADVICE
        &&& self.advice[1].index < MAX_ADVICE
        &&& self.advice[2].index < MAX_ADVICE
        &&& self.advice[0] != self.advice[1]
        &&& self.advice[0] != self.advice[2]
        &&& self.advice[1] != self.advice[2]
    }

    /// The selectors switch on the chip's two gates over its columns, and the
    /// columns take part in copy constraints.
    pub open spec fn declared_in(&self, cs: &ConstraintSystem) -> bool {
        &&& self.s_bool.index < cs.gates@.len()
        &&& self.s_mux.index < cs.gates@.len()
        &&& cs.gates@[self.s_bool.index as int] == (Gate::Bool { s: self.advice[2] })
        &&& cs.gates@[self.s_mux.index as int] == (Gate::Mux {
            a: self.advice[0],
            b: self.advice[1],
            s: self.advice[2],
        })
        &&& cs.equality@[self.advice[0].index as int]
        &&& cs.equality@[self.advice[1].index as int]
        &&& cs.equality@[self.advice[2].index as int]
    }
}

/// The two rows a `mux` call assigns: `a`, `b` and the selector on the first,
/// the output below `a` on the second.
pub open spec fn mux_rows(config: MuxConfig, a: Fe, b: Fe, s: Fe) -> Seq<Option<Fe>> {
    Seq::new(
        6,
        |i: int|
            if i == config.advice[0].index {
                Some(a)
            } else if i == config.advice[1].index {
                Some(b)
            } else if i == config.advice[2].index {
                Some(s)
            } else if i == 3 + config.advice[0].index {
                Some(mux_select(a, b, s))
            } else {
                None
            },
    )
}

/// The multiplexer chip.
#[derive(Clone, Copy, Debug)]
pub struct MuxChip {
    pub config: MuxConfig,
}

impl MuxChip {
    /// Lets the three columns take part in copy constraints and declares the
    /// boolean gate, then the multiplexer gate.
    pub fn configure(cs: &mut ConstraintSystem, advice: [Column; 3]) -> (r: MuxConfig)
        requires
            old(cs).wf(),
            advice[0].index < old(cs).num_advice,
            advice[1].index < old(cs).num_advice,
            advice[2].index < old(cs).num_advice,
            advice[0] != advice[1],
            advice[0] != advice[2],
            advice[1] != advice[2],
        ensures
            final(cs).wf(),
            r.advice == advice,
            r.wf(),
            r.declared_in(final(cs)),
            r.s_bool.index == old(cs).gates@.len(),
            r.s_mux.index == old(cs).gates@.len() + 1,
            final(cs).gates@ == old(cs).gates@ + seq![
                Gate::Bool { s: advice[2] },
                Gate::Mux { a: advice[0], b: advice[1], s: advice[2] },
            ],
            final(cs).num_advice == old(cs).num_advice,
            final(cs).equality@ == old(cs).equality@.update(advice[0].index as int, true).update(
                advice[1].index as int,
                true,
            ).update(advice[2].index as int, true),
            final(cs).instance_equality == old(cs).instance_equality,
    {
        cs.enable_equality(advice[0]);
        cs.enable_equality(advice[1]);
        cs.enable_equality(advice[2]);
        let s_bool = cs.create_gate(Gate::Bool { s: advice[2] });
        let s_mux = cs.create_gate(Gate::Mux { a: advice[0], b: advice[1], s: advice[2] });
        assert(cs.gates@ =~= old(cs).gates@ + seq![
            Gate::Bool { s: advice[2] },
            Gate::Mux { a: advice[0], b: advice[1], s: advice[2] },
        ]);
        MuxConfig { advice, s_mux, s_bool }
    }

    pub fn construct(config: MuxConfig) -> (r: MuxChip)
        ensures
            r.config == config,
    {
        MuxChip { config }
    }

    pub fn config(&self) -> (r: &MuxConfig)
        ensures
            *r == self.config,
    {
        &self.config
    }

    /// Outputs `a` when the selector is 0 and `b` otherwise, in a two-row
    /// region: `a`, `b` and the selector are copied onto its first row and
    /// constrained equal to the inputs' cells, both gates are switched on
    /// there, and the output goes below `a`. Fails, leaving the trace as it
    /// was, when an input's value is unknown.
    pub fn mux(&self, trace: &mut Trace, a: &CellValue, b: &CellValue, selector: &CellValue) -> (r:
        Result<CellValue, Error>)
        requires
            old(trace).wf(),
            old(trace).has_room(2),
            self.config.wf(),
            a.value.wf(),
            b.value.wf(),
            selector.value.wf(),
        ensures
            final(trace).wf(),
            final(trace).exposed == old(trace).exposed,
            match (a.value, b.value, selector.value) {
                (Value::Known(x), Value::Known(y), Value::Known(s)) => {
                    let start = old(trace).num_rows() as usize;
                    let cfg = self.config;
                    &&& r == Ok::<CellValue, Error>(
                        CellValue {
                            cell: Cell { column: cfg.advice[0], row: (start + 1) as usize },
                            value: Value::Known(mux_select(x, y, s)),
                        },
                    )
                    &&& final(trace).cells@ == old(trace).cells@ + mux_rows(cfg, x, y, s)
                    &&& final(trace).copies@ == old(trace).copies@ + seq![
                        Equality { left: a.cell, right: Cell { column: cfg.advice[0], row: start } },
                        Equality { left: b.cell, right: Cell { column: cfg.advice[1], row: start } },
                        Equality {
                            left: selector.cell,
                            right: Cell { column: cfg.advice[2], row: start },
                        },
                    ]
                    &&& final(trace).enabled@ == old(trace).enabled@ + seq![
                        Activation { selector: cfg.s_bool, row: start },
                        Activation { selector: cfg.s_mux, row: start },
                    ]
                },
                _ => {
                    &&& r == Err::<CellValue, Error>(Error::Synthesis)
                    &&& *final(trace) == *old(trace)
                },
            },
    {
        let (x, y, s) = match (a.value, b.value, selector.value) {
            (Value::Known(x), Value::Known(y), Value::Known(s)) => (x, y, s),
            _ => {
                return Err(Error::Synthesis);
            },
        };
        let cfg = self.config;
        let start = trace.region(2);
        let a_cell = trace.assign_value(cfg.advice[0], start, &x);
        let b_cell = trace.assign_value(cfg.advice[1], start, &y);
        let s_cell = trace.assign_value(cfg.advice[2], start, &s);
        trace.constrain_equal(a.cell, a_cell);
        trace.constrain_equal(b.cell, b_cell);
        trace.constrain_equal(selector.cell, s_cell);
        trace.enable_selector(cfg.s_bool, start);
        trace.enable_selector(cfg.s_mux, start);
        let out = if s.is_zero() {
            x
        } else {
            y
        };
        let out_cell = trace.assign_value(cfg.advice[0], start + 1, &out);
        assert(trace.cells@ =~= old(trace).cells@ + mux_rows(cfg, x, y, s));
        assert(trace.copies@ =~= old(trace).copies@ + seq![
            Equality { left: a.cell, right: Cell { column: cfg.advice[0], row: start } },
            Equality { left: b.cell, right: Cell { column: cfg.advice[1], row: start } },
            Equality { left: selector.cell, right: Cell { column: cfg.advice[2], row: start } },
        ]);
        assert(trace.enabled@ =~= old(trace).enabled@ + seq![
            Activation { selector: cfg.s_bool, row: start },
            Activation { selector: cfg.s_mux, row: start },
        ]);
        Ok(CellValue::new(out_cell, Value::Known(out)))
    }
}

} // verus!
