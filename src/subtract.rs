//! The subtraction chip, the field chip that wraps it with private inputs and
//! public outputs, and the circuit that exposes `a - b`.

use crate::field::{fsub, lemma_val_injective, Fe};
use crate::gate::{lemma_subtract_gate_holds, subtract_poly, Gate};
use crate::layout::{Activation, ConstraintSystem, Equality, Exposure, Trace};
use crate::utils::single_row;
use crate::value::{Cell, CellValue, Column, Error, Selector, Value, MAX_ADVICE};
use vstd::prelude::*;

verus! {

/// The columns and selector of the subtraction chip.
#[derive(Clone, Copy, Debug)]
pub struct SubtractConfig {
    /// `lhs` and `rhs`; the output goes below `lhs`.
    pub advice: [Column; 2],
    pub s_subtract: Selector,
}

impl SubtractConfig {
    /// Two distinct advice columns within the trace's width.
    pub open spec fn wf(&self) -> bool {
        &&& self.advice[0].index < MAX_ADVICE
        &&& self.advice[1].index < MAX_ADVICE
        &&& self.advice[0] != self.advice[1]
    }

    /// The selector switches on the subtraction gate over the chip's columns.
    pub open spec fn declared_in(&self, cs: &ConstraintSystem) -> bool {
        &&& self.s_subtract.index < cs.gates@.len()
        &&& cs.gates@[self.s_subtract.index as int] == (Gate::Subtract {
            lhs: self.advice[0],
            rhs: self.advice[1],
        })
    }
}

/// The two rows a subtraction assigns: `lhs` and `rhs` on the first, the
/// difference `d` below `lhs` on the second.
pub open spec fn subtract_rows(config: SubtractConfig, lhs: Fe, rhs: Fe, d: Fe) -> Seq<
    Option<Fe>,
> {
    Seq::new(
        6,
        |i: int|
            if i == config.advice[0].index {
                Some(lhs)
            } else if i == config.advice[1].index {
                Some(rhs)
            } else if i == 3 + config.advice[0].index {
                Some(d)
            } else {
                None
            },
    )
}

/// The subtraction chip.
#[derive(Clone, Copy, Debug)]
pub struct SubtractChip {
    pub config: SubtractConfig,
}

impl SubtractChip {
    pub fn construct(config: SubtractConfig) -> (r: SubtractChip)
        ensures
            r.config == config,
    {
        SubtractChip { config }
    }

    pub fn config(&self) -> (r: &SubtractConfig)
        ensures
            *r == self.config,
    {
        &self.config
    }

    /// Declares the subtraction gate over the two columns.
    pub fn configure(cs: &mut ConstraintSystem, advice: [Column; 2]) -> (r: SubtractConfig)
        requires
            old(cs).wf(),
            advice[0].index < old(cs).num_advice,
            advice[1].index < old(cs).num_advice,
            advice[0] != advice[1],
        ensures
            final(cs).wf(),
            r.advice == advice,
            r.wf(),
            r.declared_in(final(cs)),
            r.s_subtract.index == old(cs).gates@.len(),
            final(cs).gates@ == old(cs).gates@.push(
                Gate::Subtract { lhs: advice[0], rhs: advice[1] },
            ),
            final(cs).num_advice == old(cs).num_advice,
            final(cs).equality == old(cs).equality,
            final(cs).instance_equality == old(cs).instance_equality,
    {
        let s_subtract = cs.create_gate(Gate::Subtract { lhs: advice[0], rhs: advice[1] });
        SubtractConfig { advice, s_subtract }
    }

    /// Outputs `a - b` in a two-row region: its selector is switched on at its
    /// first row, `a` and `b` are copied there and constrained equal to the
    /// inputs' cells, and the difference goes below `a`. Fails, leaving the
    /// trace as it was, when an input's value is unknown.
    pub fn do_subtract(&self, trace: &mut Trace, a: &CellValue, b: &CellValue) -> (r: Result<
        CellValue,
        Error,
    >)
        requires
            old(trace).wf(),
            old(trace).has_room(2),
            self.config.wf(),
            a.value.wf(),
            b.value.wf(),
        ensures
            final(trace).wf(),
            final(trace).exposed == old(trace).exposed,
            match (a.value, b.value) {
                (Value::Known(x), Value::Known(y)) => {
                    let start = old(trace).num_rows() as usize;
                    let cfg = self.config;
                    &&& exists|d: Fe|
                        {
                            &&& d.wf()
                            &&& d.val() == fsub(x.val(), y.val())
                            &&& r == Ok::<CellValue, Error>(
                                CellValue {
                                    cell: Cell {
                                        column: cfg.advice[0],
                                        row: (start + 1) as usize,
                                    },
                                    value: Value::Known(d),
                                },
                            )
                            &&& final(trace).cells@ == old(trace).cells@ + subtract_rows(
                                cfg,
                                x,
                                y,
                                d,
                            )
                        }
                    &&& final(trace).copies@ == old(trace).copies@ + seq![
                            Equality {
                                left: a.cell,
                                right: Cell { column: cfg.advice[0], row: start },
                            },
                            Equality {
                                left: b.cell,
                                right: Cell { column: cfg.advice[1], row: start },
                            },
                        ]
                    &&& final(trace).enabled@ == old(trace).enabled@.push(
                            Activation { selector: cfg.s_subtract, row: start },
                        )
                },
                _ => {
                    &&& r == Err::<CellValue, Error>(Error::Synthesis)
                    &&& *final(trace) == *old(trace)
                },
            },
    {
        let (x, y) = match (a.value, b.value) {
            (Value::Known(x), Value::Known(y)) => (x, y),
            _ => {
                return Err(Error::Synthesis);
            },
        };
        let cfg = self.config;
        let start = trace.region(2);
        trace.enable_selector(cfg.s_subtract, start);
        let lhs = trace.assign_value(cfg.advice[0], start, &x);
        let rhs = trace.assign_value(cfg.advice[1], start, &y);
        trace.constrain_equal(a.cell, lhs);
        trace.constrain_equal(b.cell, rhs);
        let d = x.sub(&y);
        let cell = trace.assign_value(cfg.advice[0], start + 1, &d);
        assert(trace.cells@ =~= old(trace).cells@ + subtract_rows(cfg, x, y, d));
        assert(trace.copies@ =~= old(trace).copies@ + seq![
            Equality { left: a.cell, right: Cell { column: cfg.advice[0], row: start } },
            Equality { left: b.cell, right: Cell { column: cfg.advice[1], row: start } },
        ]);
        Ok(CellValue::new(cell, Value::Known(d)))
    }
}

/// The columns of the field chip: its two advice columns, through which it
/// talks to the rest of the circuit, and the subtraction chip's configuration.
#[derive(Clone, Copy, Debug)]
pub struct FieldConfig {
    pub advice: [Column; 2],
    pub subtract_config: SubtractConfig,
}

impl FieldConfig {
    /// The subtraction chip runs over the field chip's columns, its gate is
    /// declared, and the columns and the public input take part in copy
    /// constraints.
    pub open spec fn declared_in(&self, cs: &ConstraintSystem) -> bool {
        &&& cs.wf()
        &&& self.subtract_config.advice == self.advice
        &&& self.subtract_config.wf()
        &&& self.subtract_config.declared_in(cs)
        &&& cs.equality@[self.advice[0].index as int]
        &&& cs.equality@[self.advice[1].index as int]
        &&& cs.instance_equality
    }
}

/// The chip that loads private inputs, subtracts, and exposes public outputs.
#[derive(Clone, Copy, Debug)]
pub struct FieldChip {
    pub config: FieldConfig,
}

impl FieldChip {
    pub fn construct(config: FieldConfig) -> (r: FieldChip)
        ensures
            r.config == config,
    {
        FieldChip { config }
    }

    pub fn config(&self) -> (r: &FieldConfig)
        ensures
            *r == self.config,
    {
        &self.config
    }

    /// Configures the subtraction chip over `advice` and lets the columns and
    /// the public input take part in copy constraints.
    pub fn configure(cs: &mut ConstraintSystem, advice: [Column; 2]) -> (r: FieldConfig)
        requires
            old(cs).wf(),
            advice[0].index < old(cs).num_advice,
            advice[1].index < old(cs).num_advice,
            advice[0] != advice[1],
        ensures
            final(cs).wf(),
            r.advice == advice,
            r.declared_in(final(cs)),
            r.subtract_config.s_subtract.index == old(cs).gates@.len(),
            final(cs).num_advice == old(cs).num_advice,
            final(cs).gates@ == old(cs).gates@.push(
                Gate::Subtract { lhs: advice[0], rhs: advice[1] },
            ),
            final(cs).equality@ == old(cs).equality@.update(advice[0].index as int, true).update(
                advice[1].index as int,
                true,
            ),
            final(cs).instance_equality,
    {
        let subtract_config = SubtractChip::configure(cs, advice);
        cs.enable_instance_equality();
        cs.enable_equality(advice[0]);
        cs.enable_equality(advice[1]);
        FieldConfig { advice, subtract_config }
    }

    /// Loads a private input into the first column, in a one-row region of
    /// its own. Fails, leaving the trace as it was, when the value is unknown.
    pub fn load_private(&self, trace: &mut Trace, value: &Value) -> (r: Result<CellValue, Error>)
        requires
            old(trace).wf(),
            old(trace).has_room(1),
            value.wf(),
            self.config.advice[0].index < MAX_ADVICE,
        ensures
            final(trace).wf(),
            final(trace).enabled == old(trace).enabled,
            final(trace).copies == old(trace).copies,
            final(trace).exposed == old(trace).exposed,
            match *value {
                Value::Known(v) => {
                    &&& r == Ok::<CellValue, Error>(
                        CellValue {
                            cell: Cell {
                                column: self.config.advice[0],
                                row: old(trace).num_rows() as usize,
                            },
                            value: *value,
                        },
                    )
                    &&& final(trace).cells@ == old(trace).cells@ + single_row(
                        self.config.advice[0],
                        v,
                    )
                },
                Value::Unknown => {
                    &&& r == Err::<CellValue, Error>(Error::Synthesis)
                    &&& final(trace).cells == old(trace).cells
                },
            },
    {
        crate::utils::load_private(trace, self.config.advice[0], value)
    }

    /// `a - b`, through the subtraction chip.
    pub fn subtract(&self, trace: &mut Trace, a: &CellValue, b: &CellValue) -> (r: Result<
        CellValue,
        Error,
    >)
        requires
            old(trace).wf(),
            old(trace).has_room(2),
            self.config.subtract_config.wf(),
            a.value.wf(),
            b.value.wf(),
        ensures
            final(trace).wf(),
            final(trace).exposed == old(trace).exposed,
            match (a.value, b.value) {
                (Value::Known(x), Value::Known(y)) => {
                    let start = old(trace).num_rows() as usize;
                    let cfg = self.config.subtract_config;
                    &&& exists|d: Fe|
                        {
                            &&& d.wf()
                            &&& d.val() == fsub(x.val(), y.val())
                            &&& r == Ok::<CellValue, Error>(
                                CellValue {
                                    cell: Cell {
                                        column: cfg.advice[0],
                                        row: (start + 1) as usize,
                                    },
                                    value: Value::Known(d),
                                },
                            )
                            &&& final(trace).cells@ == old(trace).cells@ + subtract_rows(
                                cfg,
                                x,
                                y,
                                d,
                            )
                        }
                    &&& final(trace).copies@ == old(trace).copies@ + seq![
                            Equality {
                                left: a.cell,
                                right: Cell { column: cfg.advice[0], row: start },
                            },
                            Equality {
                                left: b.cell,
                                right: Cell { column: cfg.advice[1], row: start },
                            },
                        ]
                    &&& final(trace).enabled@ == old(trace).enabled@.push(
                            Activation { selector: cfg.s_subtract, row: start },
                        )
                },
                _ => {
                    &&& r == Err::<CellValue, Error>(Error::Synthesis)
                    &&& *final(trace) == *old(trace)
                },
            },
    {
        let chip = SubtractChip::construct(self.config.subtract_config);
        chip.do_subtract(trace, a, b)
    }

    /// Binds the cell of `num` to row `row` of the public input.
    pub fn expose_public(&self, trace: &mut Trace, num: &CellValue, row: usize)
        ensures
            final(trace).cells == old(trace).cells,
            final(trace).enabled == old(trace).enabled,
            final(trace).copies == old(trace).copies,
            final(trace).exposed@ == old(trace).exposed@.push(Exposure { cell: num.cell, row }),
    {
        crate::utils::constrain_public(trace, num, row)
    }
}

/// Whether the subtraction circuit on known inputs is satisfied by
/// `instance`: its first entry is the canonical form of `a - b`.
pub open spec fn subtract_circuit_accepts(a: Fe, b: Fe, instance: Seq<Fe>) -> bool {
    &&& 0 < instance.len()
    &&& instance[0].wf()
    &&& instance[0].val() == fsub(a.val(), b.val())
}

/// The private inputs of the subtraction circuit.
#[derive(Clone, Copy, Debug)]
pub struct SubtractCircuit {
    pub a: Value,
    pub b: Value,
}

impl SubtractCircuit {
    pub open spec fn wf(&self) -> bool {
        self.a.wf() && self.b.wf()
    }

    /// The same circuit with both inputs unknown, for deriving its shape.
    pub fn without_witnesses(&self) -> (r: SubtractCircuit)
        ensures
            r.a == Value::Unknown,
            r.b == Value::Unknown,
    {
        SubtractCircuit { a: Value::Unknown, b: Value::Unknown }
    }

    /// Declares two advice columns and configures the field chip over them.
    pub fn configure(cs: &mut ConstraintSystem) -> (r: FieldConfig)
        requires
            old(cs).wf(),
            old(cs).num_advice == 0,
        ensures
            final(cs).wf(),
            r.declared_in(final(cs)),
            r.advice[0].index == 0,
            r.advice[1].index == 1,
            final(cs).num_advice == 2,
            final(cs).gates@ == seq![Gate::Subtract { lhs: r.advice[0], rhs: r.advice[1] }],
            final(cs).equality@ == old(cs).equality@.update(0, true).update(1, true),
            final(cs).instance_equality,
    {
        proof {
            if old(cs).gates@.len() > 0 {
                assert(old(cs).gates@[0].reads_within(0));
            }
            assert(old(cs).gates@ =~= Seq::<Gate>::empty());
        }
        let c0 = cs.advice_column();
        let c1 = cs.advice_column();
        FieldChip::configure(cs, [c0, c1])
    }

    /// Loads `a` and `b`, subtracts, and binds the difference to row 0 of the
    /// public input. Fails when an input is unknown.
    pub fn synthesize(&self, config: &FieldConfig, trace: &mut Trace) -> (r: Result<(), Error>)
        requires
            self.wf(),
            old(trace).wf(),
            old(trace).has_room(4),
            config.subtract_config.advice == config.advice,
            config.subtract_config.wf(),
        ensures
            final(trace).wf(),
            match (self.a, self.b) {
                (Value::Known(x), Value::Known(y)) => {
                    let r0 = old(trace).num_rows() as usize;
                    let c = config.advice;
                    &&& r is Ok
                    &&& exists|d: Fe|
                        {
                            &&& d.wf()
                            &&& d.val() == fsub(x.val(), y.val())
                            &&& final(trace).cells@ == old(trace).cells@ + single_row(c[0], x)
                                + single_row(c[0], y) + subtract_rows(config.subtract_config, x, y, d)
                        }
                    &&& final(trace).copies@ == old(trace).copies@ + seq![
                        Equality {
                            left: Cell { column: c[0], row: r0 },
                            right: Cell { column: c[0], row: (r0 + 2) as usize },
                        },
                        Equality {
                            left: Cell { column: c[0], row: (r0 + 1) as usize },
                            right: Cell { column: c[1], row: (r0 + 2) as usize },
                        },
                    ]
                    &&& final(trace).enabled@ == old(trace).enabled@.push(
                        Activation {
                            selector: config.subtract_config.s_subtract,
                            row: (r0 + 2) as usize,
                        },
                    )
                    &&& final(trace).exposed@ == old(trace).exposed@.push(
                        Exposure { cell: Cell { column: c[0], row: (r0 + 3) as usize }, row: 0 },
                    )
                },
                _ => r == Err::<(), Error>(Error::Synthesis),
            },
    {
        let field_chip = FieldChip::construct(*config);
        let a = match field_chip.load_private(trace, &self.a) {
            Ok(v) => v,
            Err(e) => {
                return Err(e);
            },
        };
        let b = match field_chip.load_private(trace, &self.b) {
            Ok(v) => v,
            Err(e) => {
                return Err(e);
            },
        };
        let d = match field_chip.subtract(trace, &a, &b) {
            Ok(v) => v,
            Err(e) => {
                return Err(e);
            },
        };
        field_chip.expose_public(trace, &d, 0);
        Ok(())
    }

    /// Configures a fresh constraint system, synthesises a fresh trace, and
    /// checks it against `instance`: `Ok(true)` when every constraint holds.
    /// Fails when an input is unknown.
    pub fn check(&self, instance: &Vec<Fe>) -> (r: Result<bool, Error>)
        requires
            self.wf(),
        ensures
            match (self.a, self.b) {
                (Value::Known(x), Value::Known(y)) => r == Ok::<bool, Error>(
                    subtract_circuit_accepts(x, y, instance@),
                ),
                _ => r == Err::<bool, Error>(Error::Synthesis),
            },
    {
        let mut cs = ConstraintSystem::new();
        let config = SubtractCircuit::configure(&mut cs);
        let mut trace = Trace::new();
        match self.synthesize(&config, &mut trace) {
            Ok(()) => {},
            Err(e) => {
                return Err(e);
            },
        }
        let ok = trace.verify(&cs, instance);
        proof {
            match (self.a, self.b) {
                (Value::Known(x), Value::Known(y)) => {
                    let d = choose|d: Fe|
                        {
                            &&& d.wf()
                            &&& d.val() == fsub(x.val(), y.val())
                            &&& trace.cells@ == Seq::<Option<Fe>>::empty() + single_row(
                                config.advice[0],
                                x,
                            ) + single_row(config.advice[0], y) + subtract_rows(
                                config.subtract_config,
                                x,
                                y,
                                d,
                            )
                        };
                    assert(trace.exposed@ =~= seq![
                        Exposure { cell: Cell { column: config.advice[0], row: 3 }, row: 0 },
                    ]);
                    assert(trace.enabled@ =~= seq![
                        Activation { selector: config.subtract_config.s_subtract, row: 2 },
                    ]);
                    lemma_subtract_trace_verdict(&cs, &config, &trace, x, y, d, instance@);
                },
                _ => {},
            }
        }
        Ok(ok)
    }
}

/// The trace that the subtraction circuit synthesises from an empty trace is
/// satisfied exactly when `subtract_circuit_accepts` holds.
proof fn lemma_subtract_trace_verdict(
    cs: &ConstraintSystem,
    config: &FieldConfig,
    trace: &Trace,
    x: Fe,
    y: Fe,
    d: Fe,
    instance: Seq<Fe>,
)
    requires
        config.declared_in(cs),
        config.advice[0].index == 0,
        config.advice[1].index == 1,
        x.wf(),
        y.wf(),
        d.wf(),
        d.val() == fsub(x.val(), y.val()),
        trace.cells@ == Seq::<Option<Fe>>::empty() + single_row(config.advice[0], x) + single_row(
            config.advice[0],
            y,
        ) + subtract_rows(config.subtract_config, x, y, d),
        trace.copies@ == Seq::<Equality>::empty() + seq![
            Equality {
                left: Cell { column: config.advice[0], row: 0 },
                right: Cell { column: config.advice[0], row: 2 },
            },
            Equality {
                left: Cell { column: config.advice[0], row: 1 },
                right: Cell { column: config.advice[1], row: 2 },
            },
        ],
        trace.enabled@ == seq![Activation { selector: config.subtract_config.s_subtract, row: 2 }],
        trace.exposed@ == seq![
            Exposure { cell: Cell { column: config.advice[0], row: 3 }, row: 0 },
        ],
    ensures
        trace.satisfied(cs, instance) == subtract_circuit_accepts(x, y, instance),
{
    assert(trace.cells@ =~= seq![
        Some(x), None, None,
        Some(y), None, None,
        Some(x), Some(y), None,
        Some(d), None, None,
    ]);
    assert(trace.copies@ =~= seq![
        Equality {
            left: Cell { column: config.advice[0], row: 0 },
            right: Cell { column: config.advice[0], row: 2 },
        },
        Equality {
            left: Cell { column: config.advice[0], row: 1 },
            right: Cell { column: config.advice[1], row: 2 },
        },
    ]);
    let c = config.advice;
    assert(trace.at(c[0], 0) == Some(x));
    assert(trace.at(c[0], 1) == Some(y));
    assert(trace.at(c[0], 2) == Some(x));
    assert(trace.at(c[1], 2) == Some(y));
    assert(trace.at(c[0], 3) == Some(d));
    lemma_subtract_gate_holds(x, y);
    assert(subtract_poly(x.val(), y.val(), d.val()) == 0);
    assert(trace.activation_holds(cs, trace.enabled@[0]));
    assert(trace.equality_holds(cs, trace.copies@[0]));
    assert(trace.equality_holds(cs, trace.copies@[1]));
    let holds_out = trace.exposure_holds(cs, trace.exposed@[0], instance);
    if 0 < instance.len() && instance[0].wf() && instance[0].val() == d.val() {
        lemma_val_injective(instance[0], d);
    }
    assert(holds_out == subtract_circuit_accepts(x, y, instance));
    if holds_out {
        assert forall|i: int| 0 <= i < trace.copies@.len() implies trace.equality_holds(
            cs,
            #[trigger] trace.copies@[i],
        ) by {
            if i == 1 {
            }
        }
    }
}

} // verus!
