//! A model of the circuit's assignment grid.
//!
//! Each gadget instance owns one region holding one row: the triple of
//! witness cells (`in_a`, `in_b`, `out`), the fixed selector-value cell
//! (`sel`), and the constraint's activation flag. Rows are assigned exactly once,
//! assignments to distinct instances never touch each other's cells, and the
//! gate's polynomial identity holds at every assigned row.

use vstd::prelude::*;
use crate::value::{Val, mux_spec, mux_value};

verus! {

/// One assigned row: the three witness cells, the fixed selector-value cell,
/// and whether the constraint is enforced there.
#[derive(Clone, Copy, Debug, PartialEq, Eq)]
pub struct RowCells {
    pub in_a: Val,
    pub in_b: Val,
    pub out: Val,
    pub sel: Val,
    pub active: bool,
}

impl RowCells {
    /// Every cell of the row holds a canonical element, where it holds one.
    pub open spec fn wf(self) -> bool {
        self.in_a.wf() && self.in_b.wf() && self.out.wf() && self.sel.wf()
    }
}

/// The polynomial identity at one row: wherever the activation flag is set, the
/// output cell holds exactly `in_a * (1 - sel) + in_b * sel` (and is unknown
/// exactly when one of the operands is).
pub open spec fn gate_holds(rc: RowCells) -> bool {
    rc.active ==> rc.out@ == mux_spec(rc.in_a@, rc.in_b@, rc.sel@)
}

/// An unassigned slot is trivially in order; an assigned row must be
/// well-formed and satisfy the polynomial identity.
pub open spec fn slot_ok(slot: Option<RowCells>) -> bool {
    match slot {
        Some(rc) => rc.wf() && gate_holds(rc),
        None => true,
    }
}

/// The assignment grid: one slot per gadget instance, `None` until that
/// instance's row has been bound.
pub struct GridModel {
    pub slots: Vec<Option<RowCells>>,
}

impl GridModel {
    /// The grid's sole correctness invariant: the identity holds at every
    /// assigned row.
    pub open spec fn wf(self) -> bool {
        forall|i: int| 0 <= i < self.slots@.len() ==> slot_ok(#[trigger] self.slots@[i])
    }

    /// How many gadget instances the grid has room for.
    pub open spec fn len(self) -> int {
        self.slots@.len() as int
    }

    /// A grid for `count` gadget instances, none assigned yet.
    pub fn new(count: usize) -> (r: GridModel)
        ensures
            r.wf(),
            r.len() == count,
            forall|i: int| 0 <= i < count ==> r.slots@[i] is None,
    {
        let mut slots: Vec<Option<RowCells>> = Vec::new();
        for k in 0..count
            invariant
                slots@.len() == k,
                forall|i: int| 0 <= i < k ==> slots@[i] is None,
        {
            slots.push(None);
        }
        GridModel { slots }
    }

    /// Binds gadget instance `i`: enforces the identity at its row, stores the
    /// two inputs and the selector value, computes and stores the multiplexed
    /// output, and returns that output. The row must not have been assigned
    /// before, and no other instance's cells change.
    pub fn assign_instance(&mut self, i: usize, a: &Val, b: &Val, sel: &Val) -> (out: Val)
        requires
            old(self).wf(),
            i < old(self).len(),
            old(self).slots@[i as int] is None,
            a.wf(),
            b.wf(),
            sel.wf(),
        ensures
            final(self).wf(),
            final(self).len() == old(self).len(),
            out.wf(),
            out@ == mux_spec(a@, b@, sel@),
            final(self).slots@[i as int] == Some(RowCells {
                in_a: *a,
                in_b: *b,
                out: out,
                sel: *sel,
                active: true,
            }),
            forall|j: int| 0 <= j < final(self).len() && j != i
                ==> final(self).slots@[j] == old(self).slots@[j],
    {
        let out = mux_value(a, b, sel);
        self.slots[i] = Some(RowCells { in_a: *a, in_b: *b, out: out, sel: *sel, active: true });
        out
    }
}

/// Correctness law at a bound row: wherever the constraint is enforced on
/// known cells and the selector value is boolean, the bound output cell
/// holds exactly `in_a` when `sel` is zero and exactly `in_b` when `sel` is
/// one.
pub proof fn lemma_row_selects(rc: RowCells)
    requires
        rc.wf(),
        gate_holds(rc),
        rc.active,
        rc.in_a@ is Some,
        rc.in_b@ is Some,
    ensures
        rc.sel@ == Some(0int) ==> rc.out@ == rc.in_a@,
        rc.sel@ == Some(1int) ==> rc.out@ == rc.in_b@,
{
    match (rc.in_a@, rc.in_b@) {
        (Some(av), Some(bv)) => {
            crate::value::lemma_mux_selects(av, bv);
        }
        _ => {}
    }
}

/// Every value of the sequence is well-formed.
pub open spec fn vals_wf(s: Seq<Val>) -> bool {
    forall|i: int| 0 <= i < s.len() ==> (#[trigger] s[i]).wf()
}

/// The circuit driver over the model grid: for witness vectors `a` and `b`
/// of one length and a single selector value shared across all rows, builds
/// a fresh grid and binds gadget instance `i` with `a[i]`, `b[i]` and `sel`,
/// for every `i` in order. Returns the fully assigned grid — every row
/// satisfying the identity — together with the per-row outputs.
pub fn synthesize_grid(a: &Vec<Val>, b: &Vec<Val>, sel: &Val) -> (r: (GridModel, Vec<Val>))
    requires
        a@.len() == b@.len(),
        vals_wf(a@),
        vals_wf(b@),
        sel.wf(),
    ensures
        r.0.wf(),
        r.0.len() == a@.len(),
        r.1@.len() == a@.len(),
        forall|i: int| 0 <= i < a@.len() ==> (#[trigger] r.1@[i])@ == mux_spec(a@[i]@, b@[i]@, sel@),
        forall|i: int| 0 <= i < a@.len() ==> r.0.slots@[i] == Some(RowCells {
            in_a: a@[i],
            in_b: b@[i],
            out: r.1@[i],
            sel: *sel,
            active: true,
        }),
{
    let count = a.len();
    let mut grid = GridModel::new(count);
    let mut outs: Vec<Val> = Vec::new();
    for k in 0..count
        invariant
            count == a@.len(),
            a@.len() == b@.len(),
            vals_wf(a@),
            vals_wf(b@),
            sel.wf(),
            grid.wf(),
            grid.len() == count,
            outs@.len() == k,
            forall|i: int| 0 <= i < k ==> (#[trigger] outs@[i])@ == mux_spec(a@[i]@, b@[i]@, sel@),
            forall|i: int| 0 <= i < k ==> grid.slots@[i] == Some(RowCells {
                in_a: a@[i],
                in_b: b@[i],
                out: outs@[i],
                sel: *sel,
                active: true,
            }),
            forall|i: int| k <= i < count ==> grid.slots@[i] is None,
    {
        let out = grid.assign_instance(k, &a[k], &b[k], sel);
        outs.push(out);
    }
    (grid, outs)
}

} // verus!
