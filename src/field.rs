//! Elements of the Pallas base field, held as canonical little-endian limbs.

use halo2_proofs::pasta::group::ff::PrimeField;
use halo2_proofs::pasta::Fp;
use vstd::prelude::*;

verus! {

/// The field's modulus p.
pub open spec fn modulus() -> int {
    (0x992d30ed00000001 + 0x224698fc094cf91b * 0x1_0000_0000_0000_0000
        + 0x4000000000000000 * 0x1_0000_0000_0000_0000_0000_0000_0000_0000
        * 0x1_0000_0000_0000_0000) as int
}

/// Field addition on canonical integers.
pub open spec fn fadd(a: int, b: int) -> int {
    (a + b) % modulus()
}

/// Field subtraction on canonical integers.
pub open spec fn fsub(a: int, b: int) -> int {
    (a - b) % modulus()
}

/// Field multiplication on canonical integers.
pub open spec fn fmul(a: int, b: int) -> int {
    (a * b) % modulus()
}

/// A field element: the integer `l0 + l1 2^64 + l2 2^128 + l3 2^192`, below the modulus.
#[derive(Clone, Copy, Debug, PartialEq, Eq, Structural)]
pub struct Fe {
    pub l0: u64,
    pub l1: u64,
    pub l2: u64,
    pub l3: u64,
}

impl Fe {
    /// The integer the limbs stand for.
    pub open spec fn val(self) -> int {
        self.l0 + self.l1 * 0x1_0000_0000_0000_0000
            + self.l2 * 0x1_0000_0000_0000_0000_0000_0000_0000_0000
            + self.l3 * 0x1_0000_0000_0000_0000_0000_0000_0000_0000 * 0x1_0000_0000_0000_0000
    }

    /// The limbs are the canonical representation of a field element.
    pub open spec fn wf(self) -> bool {
        self.val() < modulus()
    }

    pub fn zero() -> (r: Fe)
        ensures
            r.wf(),
            r.val() == 0,
    {
        Fe { l0: 0, l1: 0, l2: 0, l3: 0 }
    }

    pub fn one() -> (r: Fe)
        ensures
            r.wf(),
            r.val() == 1,
    {
        Fe { l0: 1, l1: 0, l2: 0, l3: 0 }
    }

    /// The element that a machine integer stands for.
    pub fn from_u64(n: u64) -> (r: Fe)
        ensures
            r.wf(),
            r.val() == n,
    {
        Fe { l0: n, l1: 0, l2: 0, l3: 0 }
    }

    /// Whether this is the additive identity.
    pub fn is_zero(&self) -> (r: bool)
        ensures
            r == (self.val() == 0),
    {
        self.l0 == 0 && self.l1 == 0 && self.l2 == 0 && self.l3 == 0
    }

    /// `self + o` in the field.
    pub fn add(&self, o: &Fe) -> (r: Fe)
        requires
            self.wf(),
            o.wf(),
        ensures
            r.wf(),
            r.val() == fadd(self.val(), o.val()),
    {
        fp_add(self, o)
    }

    /// `self - o` in the field.
    pub fn sub(&self, o: &Fe) -> (r: Fe)
        requires
            self.wf(),
            o.wf(),
        ensures
            r.wf(),
            r.val() == fsub(self.val(), o.val()),
    {
        fp_sub(self, o)
    }

    /// `self * o` in the field.
    pub fn mul(&self, o: &Fe) -> (r: Fe)
        requires
            self.wf(),
            o.wf(),
        ensures
            r.wf(),
            r.val() == fmul(self.val(), o.val()),
    {
        fp_mul(self, o)
    }
}

/// Limbs stand for one integer only: equal values mean equal limbs.
pub proof fn lemma_val_injective(a: Fe, b: Fe)
    requires
        a.val() == b.val(),
    ensures
        a == b,
{
    let (a0, a1, a2, a3) = (a.l0 as int, a.l1 as int, a.l2 as int, a.l3 as int);
    let (b0, b1, b2, b3) = (b.l0 as int, b.l1 as int, b.l2 as int, b.l3 as int);
    assert(a3 == b3) by (nonlinear_arith)
        requires
            a.val() == b.val(),
            a.val() == a0 + a1 * 0x1_0000_0000_0000_0000 + a2
                * 0x1_0000_0000_0000_0000_0000_0000_0000_0000 + a3
                * 0x1_0000_0000_0000_0000_0000_0000_0000_0000 * 0x1_0000_0000_0000_0000,
            b.val() == b0 + b1 * 0x1_0000_0000_0000_0000 + b2
                * 0x1_0000_0000_0000_0000_0000_0000_0000_0000 + b3
                * 0x1_0000_0000_0000_0000_0000_0000_0000_0000 * 0x1_0000_0000_0000_0000,
            0 <= a0 < 0x1_0000_0000_0000_0000,
            0 <= a1 < 0x1_0000_0000_0000_0000,
            0 <= a2 < 0x1_0000_0000_0000_0000,
            0 <= b0 < 0x1_0000_0000_0000_0000,
            0 <= b1 < 0x1_0000_0000_0000_0000,
            0 <= b2 < 0x1_0000_0000_0000_0000,
    ;
    assert(a2 == b2) by (nonlinear_arith)
        requires
            a0 + a1 * 0x1_0000_0000_0000_0000 + a2 * 0x1_0000_0000_0000_0000_0000_0000_0000_0000
                == b0 + b1 * 0x1_0000_0000_0000_0000 + b2
                * 0x1_0000_0000_0000_0000_0000_0000_0000_0000,
            0 <= a0 < 0x1_0000_0000_0000_0000,
            0 <= a1 < 0x1_0000_0000_0000_0000,
            0 <= b0 < 0x1_0000_0000_0000_0000,
            0 <= b1 < 0x1_0000_0000_0000_0000,
    ;
    assert(a1 == b1) by (nonlinear_arith)
        requires
            a0 + a1 * 0x1_0000_0000_0000_0000 == b0 + b1 * 0x1_0000_0000_0000_0000,
            0 <= a0 < 0x1_0000_0000_0000_0000,
            0 <= b0 < 0x1_0000_0000_0000_0000,
    ;
}

/// Relies on pasta's `Fp::from_raw` (limbs to the congruent element), `Fp + Fp`
/// (addition modulo p) and `Fp::to_repr` (the canonical little-endian bytes).
#[verifier::external_body]
fn fp_add(a: &Fe, b: &Fe) -> (r: Fe)
    requires
        a.wf(),
        b.wf(),
    ensures
        r.wf(),
        r.val() == fadd(a.val(), b.val()),
{
    let x = Fp::from_raw([a.l0, a.l1, a.l2, a.l3]) + Fp::from_raw([b.l0, b.l1, b.l2, b.l3]);
    let r = x.to_repr();
    Fe {
        l0: u64::from_le_bytes(r[0..8].try_into().unwrap()),
        l1: u64::from_le_bytes(r[8..16].try_into().unwrap()),
        l2: u64::from_le_bytes(r[16..24].try_into().unwrap()),
        l3: u64::from_le_bytes(r[24..32].try_into().unwrap()),
    }
}

/// Relies on pasta's `Fp::from_raw` (limbs to the congruent element), `Fp - Fp`
/// (subtraction modulo p) and `Fp::to_repr` (the canonical little-endian bytes).
#[verifier::external_body]
fn fp_sub(a: &Fe, b: &Fe) -> (r: Fe)
    requires
        a.wf(),
        b.wf(),
    ensures
        r.wf(),
        r.val() == fsub(a.val(), b.val()),
{
    let x = Fp::from_raw([a.l0, a.l1, a.l2, a.l3]) - Fp::from_raw([b.l0, b.l1, b.l2, b.l3]);
    let r = x.to_repr();
    Fe {
        l0: u64::from_le_bytes(r[0..8].try_into().unwrap()),
        l1: u64::from_le_bytes(r[8..16].try_into().unwrap()),
        l2: u64::from_le_bytes(r[16..24].try_into().unwrap()),
        l3: u64::from_le_bytes(r[24..32].try_into().unwrap()),
    }
}

/// Relies on pasta's `Fp::from_raw` (limbs to the congruent element), `Fp * Fp`
/// (multiplication modulo p) and `Fp::to_repr` (the canonical little-endian bytes).
#[verifier::external_body]
fn fp_mul(a: &Fe, b: &Fe) -> (r: Fe)
    requires
        a.wf(),
        b.wf(),
    ensures
        r.wf(),
        r.val() == fmul(a.val(), b.val()),
{
    let x = Fp::from_raw([a.l0, a.l1, a.l2, a.l3]) * Fp::from_raw([b.l0, b.l1, b.l2, b.l3]);
    let r = x.to_repr();
    Fe {
        l0: u64::from_le_bytes(r[0..8].try_into().unwrap()),
        l1: u64::from_le_bytes(r[8..16].try_into().unwrap()),
        l2: u64::from_le_bytes(r[16..24].try_into().unwrap()),
        l3: u64::from_le_bytes(r[24..32].try_into().unwrap()),
    }
}

} // verus!
