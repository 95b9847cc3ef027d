use mux::circuit::{MuxCircuit, MUX_OUTPUT};
use mux::field::Fe;
use mux::layout::{ConstraintSystem, Trace};
use mux::mux::MuxChip;
use mux::subtract::SubtractCircuit;
use mux::utils::load_private;
use mux::value::{Column, Error, Value};

fn fe(n: u64) -> Fe {
    Fe::from_u64(n)
}

fn known(n: u64) -> Value {
    Value::Known(fe(n))
}

fn neg(n: u64) -> Fe {
    Fe::zero().sub(&fe(n))
}

#[test]
fn mux_scenario_selector_zero_verifies_with_a() {
    let circuit = MuxCircuit { a: known(3), b: known(2), selector: known(0) };
    assert_eq!(circuit.check(&vec![fe(3)]), Ok(true));
}

#[test]
fn mux_scenario_selector_zero_rejects_b() {
    let circuit = MuxCircuit { a: known(3), b: known(2), selector: known(0) };
    assert_eq!(circuit.check(&vec![fe(2)]), Ok(false));
}

#[test]
fn mux_selector_one_outputs_b() {
    let circuit = MuxCircuit { a: known(3), b: known(2), selector: known(1) };
    assert_eq!(circuit.check(&vec![fe(2)]), Ok(true));
    assert_eq!(circuit.check(&vec![fe(3)]), Ok(false));
}

#[test]
fn mux_non_boolean_selector_rejected() {
    let circuit = MuxCircuit { a: known(3), b: known(2), selector: known(2) };
    assert_eq!(circuit.check(&vec![fe(2)]), Ok(false));
    assert_eq!(circuit.check(&vec![fe(3)]), Ok(false));
}

#[test]
fn mux_equal_inputs_with_non_boolean_selector_rejected() {
    let circuit = MuxCircuit { a: known(5), b: known(5), selector: known(7) };
    assert_eq!(circuit.check(&vec![fe(5)]), Ok(false));
}

#[test]
fn mux_empty_public_input_rejected() {
    let circuit = MuxCircuit { a: known(3), b: known(2), selector: known(0) };
    assert_eq!(circuit.check(&Vec::new()), Ok(false));
}

#[test]
fn mux_unknown_input_fails_synthesis() {
    let circuit = MuxCircuit { a: known(3), b: known(2), selector: known(0) };
    let shape = circuit.without_witnesses();
    assert_eq!(shape.a, Value::Unknown);
    assert_eq!(shape.check(&vec![fe(3)]), Err(Error::Synthesis));
    let partial = MuxCircuit { a: known(3), b: Value::Unknown, selector: known(0) };
    assert_eq!(partial.check(&vec![fe(3)]), Err(Error::Synthesis));
}

#[test]
fn mux_chip_outputs_by_selector() {
    let mut cs = ConstraintSystem::new();
    let config = MuxCircuit::configure(&mut cs);
    let chip = config.construct_mux_chip();
    let col = config.advice[0];
    for (s, expected) in [(0u64, 11u64), (1, 22)] {
        let mut trace = Trace::new();
        let a = load_private(&mut trace, col, &known(11)).unwrap();
        let b = load_private(&mut trace, col, &known(22)).unwrap();
        let sel = load_private(&mut trace, col, &known(s)).unwrap();
        let out = chip.mux(&mut trace, &a, &b, &sel).unwrap();
        assert_eq!(out.value(), known(expected));
        assert_eq!(out.cell().row, 4);
        assert_eq!(out.cell().column, col);
        assert_eq!(trace.copies.len(), 3);
        assert_eq!(trace.enabled.len(), 2);
        assert!(trace.verify(&cs, &Vec::new()));
    }
}

#[test]
fn mux_chip_unknown_leaves_trace_unchanged() {
    let mut cs = ConstraintSystem::new();
    let config = MuxCircuit::configure(&mut cs);
    let chip = MuxChip::construct(config.mux_config);
    let mut trace = Trace::new();
    let a = load_private(&mut trace, config.advice[0], &known(1)).unwrap();
    let mut b = a;
    b.value = Value::Unknown;
    assert_eq!(chip.mux(&mut trace, &a, &b, &a), Err(Error::Synthesis));
    assert_eq!(trace.cells.len(), 3);
    assert!(trace.copies.is_empty());
}

#[test]
fn mutated_input_cell_breaks_copy_constraint() {
    let mut cs = ConstraintSystem::new();
    let config = MuxCircuit::configure(&mut cs);
    let mut trace = Trace::new();
    let circuit = MuxCircuit { a: known(3), b: known(2), selector: known(0) };
    assert_eq!(circuit.synthesize(&config, &mut trace), Ok(()));
    assert!(trace.verify(&cs, &vec![fe(3)]));
    trace.cells[0] = Some(fe(9));
    assert!(!trace.verify(&cs, &vec![fe(3)]));
}

#[test]
fn mutated_region_cell_breaks_copy_constraint() {
    let mut cs = ConstraintSystem::new();
    let config = SubtractCircuit::configure(&mut cs);
    let mut trace = Trace::new();
    let circuit = SubtractCircuit { a: known(5), b: known(9) };
    assert_eq!(circuit.synthesize(&config, &mut trace), Ok(()));
    assert!(trace.verify(&cs, &vec![neg(4)]));
    trace.cells[7] = Some(fe(8));
    assert!(!trace.verify(&cs, &vec![neg(4)]));
}

#[test]
fn subtract_scenario_verifies_with_negative_four() {
    let circuit = SubtractCircuit { a: known(5), b: known(9) };
    assert_eq!(circuit.check(&vec![neg(4)]), Ok(true));
}

#[test]
fn subtract_scenario_rejects_off_by_one() {
    let circuit = SubtractCircuit { a: known(5), b: known(9) };
    let d = neg(4);
    assert_eq!(circuit.check(&vec![d.add(&Fe::one())]), Ok(false));
    assert_eq!(circuit.check(&vec![fe(4)]), Ok(false));
}

#[test]
fn subtract_unknown_input_fails_synthesis() {
    let circuit = SubtractCircuit { a: known(5), b: Value::Unknown };
    assert_eq!(circuit.check(&vec![neg(4)]), Err(Error::Synthesis));
    assert_eq!(circuit.without_witnesses().check(&vec![neg(4)]), Err(Error::Synthesis));
}

#[test]
fn subtract_of_equal_inputs_is_zero() {
    let circuit = SubtractCircuit { a: known(7), b: known(7) };
    assert_eq!(circuit.check(&vec![Fe::zero()]), Ok(true));
}

#[test]
fn field_arithmetic_exact_values() {
    assert_eq!(fe(5).sub(&fe(9)), neg(4));
    assert_eq!(neg(4).add(&fe(4)), Fe::zero());
    assert_eq!(fe(6).mul(&fe(7)), fe(42));
    assert_eq!(fe(2).add(&fe(3)), fe(5));
    assert_eq!(neg(1).mul(&neg(1)), Fe::one());
    assert!(!neg(4).is_zero());
    assert!(fe(3).sub(&fe(3)).is_zero());
}

#[test]
fn field_negative_four_limbs() {
    let d = neg(4);
    assert_eq!(d.l0, 0x992d30ed00000001 - 4);
    assert_eq!(d.l1, 0x224698fc094cf91b);
    assert_eq!(d.l2, 0);
    assert_eq!(d.l3, 0x4000000000000000);
}

#[test]
fn field_large_products_wrap_modulo() {
    let big = Fe::from_u64(u64::MAX);
    let sq = big.mul(&big);
    assert_eq!(sq.l0, 1);
    assert_eq!(sq.l1, u64::MAX - 1);
    assert_eq!(sq.l2, 0);
    assert_eq!(sq.l3, 0);
}

#[test]
fn public_output_row_is_zero() {
    assert_eq!(MUX_OUTPUT, 0);
}

#[test]
fn columns_are_numbered_in_order() {
    let mut cs = ConstraintSystem::new();
    let config = MuxCircuit::configure(&mut cs);
    assert_eq!(config.advice[0], Column { index: 0 });
    assert_eq!(config.advice[2], Column { index: 2 });
    assert_eq!(cs.gates.len(), 2);
}

#[test]
fn mux_negative_selector_rejected() {
    let circuit = MuxCircuit { a: known(3), b: known(2), selector: Value::Known(neg(1)) };
    assert_eq!(circuit.check(&vec![fe(2)]), Ok(false));
    assert_eq!(circuit.check(&vec![fe(3)]), Ok(false));
}
