//! The gadget's model of a field element.
//!
//! All circuit quantities are elements of the prime-order base field of the
//! Pallas curve. An element is held here by its canonical little-endian
//! 64-bit limbs, so that contracts can speak of the integer it represents;
//! the field arithmetic itself is carried out by the curve library.

use vstd::prelude::*;
use ff::PrimeField;

verus! {

/// One limb's worth of weight: 2^64.
pub open spec fn limb_radix() -> int {
    0x10000000000000000
}

/// The order of the field: the Pallas base field modulus,
/// `0x40000000000000000000000000000000224698fc094cf91b992d30ed00000001`,
/// written out by its little-endian 64-bit limbs.
pub open spec fn field_order() -> int {
    ((0x4000000000000000 * limb_radix() + 0x0000000000000000) * limb_radix()
        + 0x224698fc094cf91b) * limb_radix() + 0x992d30ed00000001
}

/// The integer that four little-endian 64-bit limbs represent.
pub open spec fn limbs_value(limbs: [u64; 4]) -> int {
    ((limbs[3] as int * limb_radix() + limbs[2] as int) * limb_radix()
        + limbs[1] as int) * limb_radix() + limbs[0] as int
}

/// A field element, held by the four little-endian 64-bit limbs of the
/// integer it canonically represents.
#[derive(Clone, Copy, Debug, PartialEq, Eq)]
pub struct Fe {
    /// The canonical little-endian limbs; callers in the library construct
    /// an element only through the constructors, which keep it canonical.
    pub limbs: [u64; 4],
}

impl Fe {
    /// The integer this element represents.
    pub open spec fn value(self) -> int {
        limbs_value(self.limbs)
    }

    /// A well-formed element is canonical: its value lies below the field order.
    pub open spec fn wf(self) -> bool {
        0 <= self.value() < field_order()
    }

    /// The element representing a small integer.
    pub fn from_u64(x: u64) -> (r: Fe)
        ensures
            r.wf(),
            r.value() == x as int,
    {
        Fe { limbs: [x, 0, 0, 0] }
    }

    /// The element whose canonical little-endian limbs are given.
    pub fn from_limbs(limbs: [u64; 4]) -> (r: Fe)
        requires
            0 <= limbs_value(limbs) < field_order(),
        ensures
            r.wf(),
            r.limbs() == limbs,
    {
        Fe { limbs }
    }

    /// Whether the held limbs are canonical, that is, whether the element is
    /// well-formed. Callers outside the library, which cannot evaluate the
    /// specification-level invariant, can test limbs with this before
    /// handing them to functions that require well-formed elements.
    pub fn is_canonical(&self) -> (r: bool)
        ensures
            r == self.wf(),
    {
        if self.limbs[3] != 0x4000000000000000 {
            self.limbs[3] < 0x4000000000000000
        } else if self.limbs[2] != 0 {
            false
        } else if self.limbs[1] != 0x224698fc094cf91b {
            self.limbs[1] < 0x224698fc094cf91b
        } else {
            self.limbs[0] < 0x992d30ed00000001
        }
    }

    /// The element whose limbs are given, if they are canonical; `None`
    /// exactly when they are not.
    pub fn checked_from_limbs(limbs: [u64; 4]) -> (r: Option<Fe>)
        ensures
            r is Some <==> 0 <= limbs_value(limbs) < field_order(),
            (r matches Some(fe) ==> fe.wf() && fe.limbs() == limbs),
    {
        let fe = Fe { limbs };
        if fe.is_canonical() {
            Some(fe)
        } else {
            None
        }
    }

    /// The canonical little-endian limbs of this element.
    pub open spec fn limbs(self) -> [u64; 4] {
        self.limbs
    }

    /// The canonical little-endian limbs, for callers outside the library.
    pub fn to_limbs(&self) -> (r: [u64; 4])
        ensures
            r == self.limbs(),
    {
        self.limbs
    }
}

/// Modular addition in the field.
pub open spec fn f_add(x: int, y: int) -> int {
    (x + y) % field_order()
}

/// Modular subtraction in the field, for operands below the field order.
pub open spec fn f_sub(x: int, y: int) -> int {
    (x + field_order() - y) % field_order()
}

/// Modular multiplication in the field.
pub open spec fn f_mul(x: int, y: int) -> int {
    (x * y) % field_order()
}

/// Relies on `pasta_curves::Fp`'s addition being addition modulo the field
/// order, on `Fp::from_raw` reading canonical little-endian limbs, and on
/// `PrimeField::to_repr` returning the canonical little-endian byte encoding.
#[verifier::external_body]
pub(crate) fn fe_add(a: &Fe, b: &Fe) -> (r: Fe)
    requires
        a.wf(),
        b.wf(),
    ensures
        r.wf(),
        r.value() == f_add(a.value(), b.value()),
{
    let s = pasta_curves::Fp::from_raw(a.limbs) + pasta_curves::Fp::from_raw(b.limbs);
    let repr = s.to_repr();
    let mut limbs = [0u64; 4];
    for i in 0..4 {
        limbs[i] = u64::from_le_bytes(repr[8 * i..8 * i + 8].try_into().unwrap());
    }
    Fe { limbs }
}

/// Relies on `pasta_curves::Fp`'s subtraction being subtraction modulo the
/// field order, on `Fp::from_raw` reading canonical little-endian limbs, and
/// on `PrimeField::to_repr` returning the canonical little-endian byte
/// encoding.
#[verifier::external_body]
pub(crate) fn fe_sub(a: &Fe, b: &Fe) -> (r: Fe)
    requires
        a.wf(),
        b.wf(),
    ensures
        r.wf(),
        r.value() == f_sub(a.value(), b.value()),
{
    let d = pasta_curves::Fp::from_raw(a.limbs) - pasta_curves::Fp::from_raw(b.limbs);
    let repr = d.to_repr();
    let mut limbs = [0u64; 4];
    for i in 0..4 {
        limbs[i] = u64::from_le_bytes(repr[8 * i..8 * i + 8].try_into().unwrap());
    }
    Fe { limbs }
}

/// Relies on `pasta_curves::Fp`'s multiplication being multiplication modulo
/// the field order, on `Fp::from_raw` reading canonical little-endian limbs,
/// and on `PrimeField::to_repr` returning the canonical little-endian byte
/// encoding.
#[verifier::external_body]
pub(crate) fn fe_mul(a: &Fe, b: &Fe) -> (r: Fe)
    requires
        a.wf(),
        b.wf(),
    ensures
        r.wf(),
        r.value() == f_mul(a.value(), b.value()),
{
    let p = pasta_curves::Fp::from_raw(a.limbs) * pasta_curves::Fp::from_raw(b.limbs);
    let repr = p.to_repr();
    let mut limbs = [0u64; 4];
    for i in 0..4 {
        limbs[i] = u64::from_le_bytes(repr[8 * i..8 * i + 8].try_into().unwrap());
    }
    Fe { limbs }
}

} // verus!
