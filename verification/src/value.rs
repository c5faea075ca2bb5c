//! Circuit values: a field element that is either concretely known or the
//! "unknown" placeholder used for circuit-shape-only compilation passes,
//! with the arithmetic the multiplexer needs lifted over it pointwise.

use vstd::prelude::*;
use crate::field::{Fe, f_add, f_mul, f_sub, fe_add, fe_mul, fe_sub, field_order};

verus! {

/// A circuit value: a concretely known field element, or the unknown
/// placeholder that stands in when no real witness is available.
#[derive(Clone, Copy, Debug, PartialEq, Eq)]
pub enum Val {
    Known(Fe),
    Unknown,
}

impl View for Val {
    type V = Option<int>;

    /// The integer a known value represents; `None` for the placeholder.
    open spec fn view(&self) -> Option<int> {
        match *self {
            Val::Known(fe) => Some(fe.value()),
            Val::Unknown => None,
        }
    }
}

impl Val {
    /// A well-formed value holds a canonical field element, if it holds one.
    pub open spec fn wf(self) -> bool {
        match self {
            Val::Known(fe) => fe.wf(),
            Val::Unknown => true,
        }
    }
}

/// Field addition lifted pointwise: unknown if either operand is unknown.
pub open spec fn v_add(a: Option<int>, b: Option<int>) -> Option<int> {
    match (a, b) {
        (Some(x), Some(y)) => Some(f_add(x, y)),
        _ => None,
    }
}

/// Field subtraction lifted pointwise: unknown if either operand is unknown.
pub open spec fn v_sub(a: Option<int>, b: Option<int>) -> Option<int> {
    match (a, b) {
        (Some(x), Some(y)) => Some(f_sub(x, y)),
        _ => None,
    }
}

/// Field multiplication lifted pointwise: unknown if either operand is unknown.
pub open spec fn v_mul(a: Option<int>, b: Option<int>) -> Option<int> {
    match (a, b) {
        (Some(x), Some(y)) => Some(f_mul(x, y)),
        _ => None,
    }
}

/// The multiplexer's defining formula, `a * (1 - sel) + b * sel`, lifted
/// over possibly-unknown values.
pub open spec fn mux_spec(a: Option<int>, b: Option<int>, sel: Option<int>) -> Option<int> {
    v_add(v_mul(a, v_sub(Some(1), sel)), v_mul(b, sel))
}

/// Lifted addition on circuit values.
pub fn val_add(a: &Val, b: &Val) -> (r: Val)
    requires
        a.wf(),
        b.wf(),
    ensures
        r.wf(),
        r@ == v_add(a@, b@),
{
    match (a, b) {
        (Val::Known(x), Val::Known(y)) => Val::Known(fe_add(x, y)),
        _ => Val::Unknown,
    }
}

/// Lifted subtraction on circuit values.
pub fn val_sub(a: &Val, b: &Val) -> (r: Val)
    requires
        a.wf(),
        b.wf(),
    ensures
        r.wf(),
        r@ == v_sub(a@, b@),
{
    match (a, b) {
        (Val::Known(x), Val::Known(y)) => Val::Known(fe_sub(x, y)),
        _ => Val::Unknown,
    }
}

/// Lifted multiplication on circuit values.
pub fn val_mul(a: &Val, b: &Val) -> (r: Val)
    requires
        a.wf(),
        b.wf(),
    ensures
        r.wf(),
        r@ == v_mul(a@, b@),
{
    match (a, b) {
        (Val::Known(x), Val::Known(y)) => Val::Known(fe_mul(x, y)),
        _ => Val::Unknown,
    }
}

/// The multiplexed output value, `a * (1 - sel) + b * sel`.
pub fn mux_value(a: &Val, b: &Val, sel: &Val) -> (r: Val)
    requires
        a.wf(),
        b.wf(),
        sel.wf(),
    ensures
        r.wf(),
        r@ == mux_spec(a@, b@, sel@),
{
    let one = Val::Known(Fe::from_u64(1));
    let not_sel = val_sub(&one, sel);
    let weighted_a = val_mul(a, &not_sel);
    let weighted_b = val_mul(b, sel);
    val_add(&weighted_a, &weighted_b)
}

/// Gate algebra law: for all field elements, boolean or not, the multiplexed
/// output is exactly `a * (1 - sel) + b * sel` in the field.
pub proof fn lemma_mux_formula(a: int, b: int, sel: int)
    ensures
        mux_spec(Some(a), Some(b), Some(sel)) == Some(f_add(f_mul(a, f_sub(1, sel)), f_mul(b, sel))),
{
}

/// Unknown-propagation law: if any operand is the unknown placeholder, the
/// multiplexed output is unknown as well.
pub proof fn lemma_unknown_propagates(a: Option<int>, b: Option<int>, sel: Option<int>)
    requires
        a is None || b is None || sel is None,
    ensures
        mux_spec(a, b, sel) is None,
{
}

/// Correctness law: with a boolean selector the formula is a true conditional
/// selection — the output is `a` when `sel` is zero and `b` when `sel` is one.
pub proof fn lemma_mux_selects(a: int, b: int)
    requires
        0 <= a < field_order(),
        0 <= b < field_order(),
    ensures
        mux_spec(Some(a), Some(b), Some(0)) == Some(a),
        mux_spec(Some(a), Some(b), Some(1)) == Some(b),
{
    let p = field_order();
    assert(1 < p);
    vstd::arithmetic::div_mod::lemma_small_mod(1nat, p as nat);
    vstd::arithmetic::div_mod::lemma_small_mod(0nat, p as nat);
    vstd::arithmetic::div_mod::lemma_small_mod(a as nat, p as nat);
    vstd::arithmetic::div_mod::lemma_small_mod(b as nat, p as nat);
    vstd::arithmetic::div_mod::lemma_mod_multiples_vanish(1, 1, p);
    vstd::arithmetic::div_mod::lemma_mod_self_0(p);
    assert(f_sub(1, 0) == 1);
    assert(f_sub(1, 1) == 0);
    assert(f_mul(a, 1) == a);
    assert(f_mul(b, 0) == 0);
    assert(f_mul(a, 0) == 0);
    assert(f_mul(b, 1) == b);
    assert(f_add(a, 0) == a);
    assert(f_add(0, b) == b);
}

} // verus!
