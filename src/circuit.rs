//! The multiplexer circuit: three private inputs, one `mux`, and its output
//! bound to the public input.

use crate::field::{modulus, Fe};
use crate::gate::{bool_poly, Gate, lemma_bool_gate_rejects, lemma_mux_gates_hold, mux_poly, mux_select};
use crate::layout::{Activation, ConstraintSystem, Equality, Exposure, Trace};
use crate::mux::{mux_rows, MuxChip, MuxConfig};
use crate::utils::{constrain_public, load_private, single_row};
use crate::value::{Cell, Column, Error, Value};
use vstd::prelude::*;

verus! {

/// The public-input row that receives the multiplexer's output.
pub const MUX_OUTPUT: usize = 0;

/// The columns of the multiplexer circuit and the chip's configuration.
#[derive(Clone, Copy, Debug)]
pub struct Config {
    pub advice: [Column; 3],
    pub mux_config: MuxConfig,
}

impl Config {
    /// The chip runs over the circuit's columns, its gates are declared, and
    /// the public input may be bound.
    pub open spec fn declared_in(&self, cs: &ConstraintSystem) -> bool {
        &&& cs.wf()
        &&& self.mux_config.advice == self.advice
        &&& self.mux_config.wf()
        &&& self.mux_config.declared_in(cs)
        &&& cs.instance_equality
    }

    pub fn construct_mux_chip(&self) -> (r: MuxChip)
        ensures
            r.config == self.mux_config,
    {
        MuxChip::construct(self.mux_config)
    }
}

/// Whether the multiplexer circuit on known inputs is satisfied by `instance`:
/// the selector passes the boolean gate, the output passes the multiplexer
/// gate, and the output is the first public input.
pub open spec fn mux_circuit_accepts(a: Fe, b: Fe, s: Fe, instance: Seq<Fe>) -> bool {
    &&& bool_poly(s.val()) == 0
    &&& mux_poly(a.val(), b.val(), s.val(), mux_select(a, b, s).val()) == 0
    &&& MUX_OUTPUT < instance.len()
    &&& instance[MUX_OUTPUT as int] == mux_select(a, b, s)
}

/// The private inputs of the multiplexer circuit.
#[derive(Clone, Copy, Debug)]
pub struct MuxCircuit {
    pub a: Value,
    pub b: Value,
    pub selector: Value,
}

impl MuxCircuit {
    pub open spec fn wf(&self) -> bool {
        self.a.wf() && self.b.wf() && self.selector.wf()
    }

    /// The same circuit with every input unknown, for deriving its shape.
    pub fn without_witnesses(&self) -> (r: MuxCircuit)
        ensures
            r.a == Value::Unknown,
            r.b == Value::Unknown,
            r.selector == Value::Unknown,
    {
        MuxCircuit { a: Value::Unknown, b: Value::Unknown, selector: Value::Unknown }
    }

    /// Declares three advice columns, lets them and the public input take part
    /// in copy constraints, and configures the chip over them.
    pub fn configure(cs: &mut ConstraintSystem) -> (r: Config)
        requires
            old(cs).wf(),
            old(cs).num_advice == 0,
        ensures
            final(cs).wf(),
            r.declared_in(final(cs)),
            r.advice[0].index == 0,
            r.advice[1].index == 1,
            r.advice[2].index == 2,
            final(cs).num_advice == 3,
            final(cs).gates@ == seq![
                Gate::Bool { s: r.advice[2] },
                Gate::Mux { a: r.advice[0], b: r.advice[1], s: r.advice[2] },
            ],
            final(cs).equality@ == old(cs).equality@.update(0, true).update(1, true).update(
                2,
                true,
            ),
            final(cs).instance_equality,
    {
        proof {
            if old(cs).gates@.len() > 0 {
                assert(old(cs).gates@[0].reads_within(0));
            }
            assert(old(cs).gates@ =~= Seq::<Gate>::empty());
        }
        let c0 = cs.advice_column();
        let c1 = cs.advice_column();
        let c2 = cs.advice_column();
        let advice = [c0, c1, c2];
        cs.enable_instance_equality();
        cs.enable_equality(c0);
        cs.enable_equality(c1);
        cs.enable_equality(c2);
        let mux_config = MuxChip::configure(cs, advice);
        Config { advice, mux_config }
    }

    /// Loads `a`, `b` and the selector into the first column, multiplexes
    /// them, and binds the output to the public input. Fails when an input is
    /// unknown.
    pub fn synthesize(&self, config: &Config, trace: &mut Trace) -> (r: Result<(), Error>)
        requires
            self.wf(),
            old(trace).wf(),
            old(trace).has_room(5),
            config.mux_config.advice == config.advice,
            config.mux_config.wf(),
        ensures
            final(trace).wf(),
            match (self.a, self.b, self.selector) {
                (Value::Known(x), Value::Known(y), Value::Known(s)) => {
                    let r0 = old(trace).num_rows() as usize;
                    let c = config.advice;
                    let m = config.mux_config;
                    &&& r is Ok
                    &&& final(trace).cells@ == old(trace).cells@ + single_row(c[0], x)
                        + single_row(c[0], y) + single_row(c[0], s) + mux_rows(m, x, y, s)
                    &&& final(trace).copies@ == old(trace).copies@ + seq![
                        Equality {
                            left: Cell { column: c[0], row: r0 },
                            right: Cell { column: c[0], row: (r0 + 3) as usize },
                        },
                        Equality {
                            left: Cell { column: c[0], row: (r0 + 1) as usize },
                            right: Cell { column: c[1], row: (r0 + 3) as usize },
                        },
                        Equality {
                            left: Cell { column: c[0], row: (r0 + 2) as usize },
                            right: Cell { column: c[2], row: (r0 + 3) as usize },
                        },
                    ]
                    &&& final(trace).enabled@ == old(trace).enabled@ + seq![
                        Activation { selector: m.s_bool, row: (r0 + 3) as usize },
                        Activation { selector: m.s_mux, row: (r0 + 3) as usize },
                    ]
                    &&& final(trace).exposed@ == old(trace).exposed@.push(
                        Exposure {
                            cell: Cell { column: c[0], row: (r0 + 4) as usize },
                            row: MUX_OUTPUT,
                        },
                    )
                },
                _ => r == Err::<(), Error>(Error::Synthesis),
            },
    {
        let mux_chip = config.construct_mux_chip();
        let a = match load_private(trace, config.advice[0], &self.a) {
            Ok(v) => v,
            Err(e) => {
                return Err(e);
            },
        };
        let b = match load_private(trace, config.advice[0], &self.b) {
            Ok(v) => v,
            Err(e) => {
                return Err(e);
            },
        };
        let selector = match load_private(trace, config.advice[0], &self.selector) {
            Ok(v) => v,
            Err(e) => {
                return Err(e);
            },
        };
        let mux_value = match mux_chip.mux(trace, &a, &b, &selector) {
            Ok(v) => v,
            Err(e) => {
                return Err(e);
            },
        };
        constrain_public(trace, &mux_value, MUX_OUTPUT);
        Ok(())
    }

    /// Configures a fresh constraint system, synthesises a fresh trace, and
    /// checks it against `instance`: `Ok(true)` when every constraint holds.
    /// Fails when an input is unknown.
    pub fn check(&self, instance: &Vec<Fe>) -> (r: Result<bool, Error>)
        requires
            self.wf(),
        ensures
            match (self.a, self.b, self.selector) {
                (Value::Known(x), Value::Known(y), Value::Known(s)) => r == Ok::<bool, Error>(
                    mux_circuit_accepts(x, y, s, instance@),
                ),
                _ => r == Err::<bool, Error>(Error::Synthesis),
            },
    {
        let mut cs = ConstraintSystem::new();
        let config = MuxCircuit::configure(&mut cs);
        let mut trace = Trace::new();
        match self.synthesize(&config, &mut trace) {
            Ok(()) => {},
            Err(e) => {
                return Err(e);
            },
        }
        let ok = trace.verify(&cs, instance);
        proof {
            match (self.a, self.b, self.selector) {
                (Value::Known(x), Value::Known(y), Value::Known(s)) => {
                    assert(trace.exposed@ =~= seq![
                        Exposure {
                            cell: Cell { column: config.advice[0], row: 4 },
                            row: MUX_OUTPUT,
                        },
                    ]);
                    lemma_mux_trace_verdict(&cs, &config, &trace, x, y, s, instance@);
                },
                _ => {},
            }
        }
        Ok(ok)
    }
}

/// The trace that the multiplexer circuit synthesises from an empty trace is
/// satisfied exactly when `mux_circuit_accepts` holds.
proof fn lemma_mux_trace_verdict(
    cs: &ConstraintSystem,
    config: &Config,
    trace: &Trace,
    x: Fe,
    y: Fe,
    s: Fe,
    instance: Seq<Fe>,
)
    requires
        config.declared_in(cs),
        config.advice[0].index == 0,
        config.advice[1].index == 1,
        config.advice[2].index == 2,
        x.wf(),
        y.wf(),
        s.wf(),
        trace.cells@ == single_row(config.advice[0], x) + single_row(config.advice[0], y)
            + single_row(config.advice[0], s) + mux_rows(config.mux_config, x, y, s),
        trace.copies@ == seq![
            Equality {
                left: Cell { column: config.advice[0], row: 0 },
                right: Cell { column: config.advice[0], row: 3 },
            },
            Equality {
                left: Cell { column: config.advice[0], row: 1 },
                right: Cell { column: config.advice[1], row: 3 },
            },
            Equality {
                left: Cell { column: config.advice[0], row: 2 },
                right: Cell { column: config.advice[2], row: 3 },
            },
        ],
        trace.enabled@ == seq![
            Activation { selector: config.mux_config.s_bool, row: 3 },
            Activation { selector: config.mux_config.s_mux, row: 3 },
        ],
        trace.exposed@ == seq![
            Exposure { cell: Cell { column: config.advice[0], row: 4 }, row: MUX_OUTPUT },
        ],
    ensures
        trace.satisfied(cs, instance) == mux_circuit_accepts(x, y, s, instance),
{
    let out = mux_select(x, y, s);
    assert(trace.cells@ =~= seq![
        Some(x), None, None,
        Some(y), None, None,
        Some(s), None, None,
        Some(x), Some(y), Some(s),
        Some(out), None, None,
    ]);
    let c = config.advice;
    assert(trace.at(c[0], 0) == Some(x));
    assert(trace.at(c[0], 1) == Some(y));
    assert(trace.at(c[0], 2) == Some(s));
    assert(trace.at(c[0], 3) == Some(x));
    assert(trace.at(c[1], 3) == Some(y));
    assert(trace.at(c[2], 3) == Some(s));
    assert(trace.at(c[0], 4) == Some(out));
    assert(trace.equality_holds(cs, trace.copies@[0]));
    assert(trace.equality_holds(cs, trace.copies@[1]));
    assert(trace.equality_holds(cs, trace.copies@[2]));
    let holds_bool = trace.activation_holds(cs, trace.enabled@[0]);
    let holds_mux = trace.activation_holds(cs, trace.enabled@[1]);
    let holds_out = trace.exposure_holds(cs, trace.exposed@[0], instance);
    assert(holds_bool == (bool_poly(s.val()) == 0));
    assert(holds_mux == (mux_poly(x.val(), y.val(), s.val(), out.val()) == 0));
    assert(holds_out == (MUX_OUTPUT < instance.len() && instance[MUX_OUTPUT as int] == out));
    if holds_bool && holds_mux && holds_out {
        assert forall|i: int| 0 <= i < trace.enabled@.len() implies trace.activation_holds(
            cs,
            #[trigger] trace.enabled@[i],
        ) by {
            if i == 1 {
            }
        }
        assert forall|i: int| 0 <= i < trace.copies@.len() implies trace.equality_holds(
            cs,
            #[trigger] trace.copies@[i],
        ) by {
            if i == 1 {
            } else if i == 2 {
            }
        }
        assert forall|i: int| 0 <= i < trace.exposed@.len() implies trace.exposure_holds(
            cs,
            #[trigger] trace.exposed@[i],
            instance,
        ) by {}
    }
}

/// With a selector of 0 or 1 the multiplexer circuit accepts exactly the
/// public inputs whose first entry is `a` (selector 0) or `b` (selector 1).
pub proof fn lemma_mux_circuit_binds_output(a: Fe, b: Fe, s: Fe, instance: Seq<Fe>)
    requires
        a.wf(),
        b.wf(),
        s.wf(),
        s.val() == 0 || s.val() == 1,
    ensures
        mux_circuit_accepts(a, b, s, instance) == (0 < instance.len() && instance[0] == (if s.val()
            == 0 {
            a
        } else {
            b
        })),
{
    lemma_mux_gates_hold(a, b, s);
}

/// A selector in `[2, 2^127)` or in `(-2^127, -1]` makes the
/// multiplexer circuit reject every public input.
pub proof fn lemma_mux_circuit_rejects_non_boolean(a: Fe, b: Fe, s: Fe, instance: Seq<Fe>)
    requires
        s.wf(),
        2 <= s.val() < 0x8000_0000_0000_0000_0000_0000_0000_0000 || modulus()
            - 0x8000_0000_0000_0000_0000_0000_0000_0000 < s.val(),
    ensures
        !mux_circuit_accepts(a, b, s, instance),
{
    lemma_bool_gate_rejects(s.val());
}

} // verus!
