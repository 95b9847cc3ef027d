//! The polynomial identities that the chips declare, and their evaluation.

use crate::field::{fadd, fmul, fsub, modulus, Fe};
use crate::value::Column;
use vstd::arithmetic::div_mod::{
    lemma_add_mod_noop, lemma_mod_add_multiples_vanish, lemma_mod_multiples_vanish, lemma_small_mod,
};
use vstd::prelude::*;

verus! {

/// A polynomial identity over advice cells, checked at each row where its
/// selector is on. `Mux` and `Subtract` read their output one row below.
#[derive(Clone, Copy, Debug, PartialEq, Eq, Structural)]
pub enum Gate {
    /// `s * (1 - s) = 0`: the cell in `s` is 0 or 1.
    Bool { s: Column },
    /// `out - ((b - a) * s + a) = 0`, with `out` in column `a` of the next row.
    Mux { a: Column, b: Column, s: Column },
    /// `lhs - rhs - out = 0`, with `out` in column `lhs` of the next row.
    Subtract { lhs: Column, rhs: Column },
}

impl Gate {
    /// Every column read by this identity is among the first `n` advice columns.
    pub open spec fn reads_within(self, n: int) -> bool {
        match self {
            Gate::Bool { s } => s.index < n,
            Gate::Mux { a, b, s } => a.index < n && b.index < n && s.index < n,
            Gate::Subtract { lhs, rhs } => lhs.index < n && rhs.index < n,
        }
    }
}

/// The value of the boolean gate's polynomial.
pub open spec fn bool_poly(s: int) -> int {
    fmul(s, fsub(1, s))
}

/// The value of the multiplexer gate's polynomial.
pub open spec fn mux_poly(a: int, b: int, s: int, out: int) -> int {
    fsub(out, fadd(fmul(fsub(b, a), s), a))
}

/// The value of the subtraction gate's polynomial.
pub open spec fn subtract_poly(lhs: int, rhs: int, out: int) -> int {
    fsub(fsub(lhs, rhs), out)
}

/// What a multiplexer outputs: `a` on selector 0, else `b`.
pub open spec fn mux_select(a: Fe, b: Fe, s: Fe) -> Fe {
    if s.val() == 0 {
        a
    } else {
        b
    }
}

/// Evaluates `s * (1 - s)`.
pub fn eval_bool(s: &Fe) -> (r: Fe)
    requires
        s.wf(),
    ensures
        r.wf(),
        r.val() == bool_poly(s.val()),
{
    let one = Fe::one();
    s.mul(&one.sub(s))
}

/// Evaluates `out - ((b - a) * s + a)`.
pub fn eval_mux(a: &Fe, b: &Fe, s: &Fe, out: &Fe) -> (r: Fe)
    requires
        a.wf(),
        b.wf(),
        s.wf(),
        out.wf(),
    ensures
        r.wf(),
        r.val() == mux_poly(a.val(), b.val(), s.val(), out.val()),
{
    out.sub(&b.sub(a).mul(s).add(a))
}

/// Evaluates `lhs - rhs - out`.
pub fn eval_subtract(lhs: &Fe, rhs: &Fe, out: &Fe) -> (r: Fe)
    requires
        lhs.wf(),
        rhs.wf(),
        out.wf(),
    ensures
        r.wf(),
        r.val() == subtract_poly(lhs.val(), rhs.val(), out.val()),
{
    lhs.sub(rhs).sub(out)
}

/// The multiplexer outputs `a` on selector 0 and `b` on selector 1.
pub proof fn lemma_mux_selects(a: Fe, b: Fe, s: Fe)
    ensures
        s.val() == 0 ==> mux_select(a, b, s) == a,
        s.val() == 1 ==> mux_select(a, b, s) == b,
{
}

/// On a selector of 0 or 1 the honest output passes both the boolean gate and
/// the multiplexer gate.
pub proof fn lemma_mux_gates_hold(a: Fe, b: Fe, s: Fe)
    requires
        a.wf(),
        b.wf(),
        s.wf(),
        s.val() == 0 || s.val() == 1,
    ensures
        bool_poly(s.val()) == 0,
        mux_poly(a.val(), b.val(), s.val(), mux_select(a, b, s).val()) == 0,
{
    let p = modulus();
    lemma_small_mod(a.val() as nat, p as nat);
    lemma_small_mod(b.val() as nat, p as nat);
    if s.val() == 0 {
        assert(fsub(1, 0) == 1) by {
            lemma_small_mod(1, p as nat);
        }
        assert(fmul(fsub(b.val(), a.val()), 0) == 0);
        assert(fadd(0, a.val()) == a.val());
    } else {
        let d = fsub(b.val(), a.val());
        assert(0 <= d < p);
        lemma_small_mod(d as nat, p as nat);
        assert(fmul(d, 1) == d);
        lemma_add_mod_noop(b.val() - a.val(), a.val(), p);
        assert(fadd(d, a.val()) == b.val());
    }
}

/// The boolean gate fails on every selector in `[2, 2^127)` and in
/// `(-2^127, -1]`: there `s * (s - 1)` is, up to sign, a positive integer
/// below the modulus.
pub proof fn lemma_bool_gate_rejects(v: int)
    requires
        0 <= v < modulus(),
        2 <= v < 0x8000_0000_0000_0000_0000_0000_0000_0000 || modulus()
            - 0x8000_0000_0000_0000_0000_0000_0000_0000 < v,
    ensures
        bool_poly(v) != 0,
{
    let p = modulus();
    let big: int = 0x8000_0000_0000_0000_0000_0000_0000_0000;
    if v < big {
        let k = v * (v - 1);
        assert(0 < k < big * big) by (nonlinear_arith)
            requires
                k == v * (v - 1),
                2 <= v < big,
        ;
        lemma_mod_add_multiples_vanish(1 - v, p);
        lemma_small_mod((p + 1 - v) as nat, p as nat);
        assert(fsub(1, v) == p + 1 - v);
        assert(v * (p + 1 - v) == p * v + (-k)) by (nonlinear_arith)
            requires
                k == v * (v - 1),
        ;
        lemma_mod_multiples_vanish(v, -k, p);
        lemma_mod_add_multiples_vanish(-k, p);
        lemma_small_mod((p - k) as nat, p as nat);
        assert(bool_poly(v) == p - k);
    } else {
        let t = p - v;
        let k = t * (t + 1);
        assert(0 < k < big * big) by (nonlinear_arith)
            requires
                k == t * (t + 1),
                1 <= t < big,
        ;
        lemma_mod_add_multiples_vanish(1 - v, p);
        lemma_small_mod((1 + t) as nat, p as nat);
        assert(fsub(1, v) == 1 + t);
        assert(v * (1 + t) == p * (1 + t) + (-k)) by (nonlinear_arith)
            requires
                k == t * (t + 1),
                v == p - t,
        ;
        lemma_mod_multiples_vanish(1 + t, -k, p);
        lemma_mod_add_multiples_vanish(-k, p);
        lemma_small_mod((p - k) as nat, p as nat);
        assert(bool_poly(v) == p - k);
    }
}

/// The honest difference passes the subtraction gate.
pub proof fn lemma_subtract_gate_holds(a: Fe, b: Fe)
    ensures
        subtract_poly(a.val(), b.val(), fsub(a.val(), b.val())) == 0,
{
    lemma_small_mod(0, modulus() as nat);
}

} // verus!
