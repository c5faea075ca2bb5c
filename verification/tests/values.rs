//! Tests of the field-element model, the lifted value arithmetic, and the
//! model grid: selection, blending, unknown propagation, non-interference.

use mux_gadget::field::Fe;
use mux_gadget::model::{synthesize_grid, GridModel, RowCells};
use mux_gadget::value::{mux_value, val_add, val_mul, val_sub, Val};

fn known(x: u64) -> Val {
    Val::Known(Fe::from_u64(x))
}

// The little-endian limbs of the field order minus one.
fn order_minus_one() -> Fe {
    Fe::from_limbs([
        0x992d30ed00000000,
        0x224698fc094cf91b,
        0x0000000000000000,
        0x4000000000000000,
    ])
}

#[test]
fn from_u64_limbs() {
    assert_eq!(Fe::from_u64(42).to_limbs(), [42, 0, 0, 0]);
    assert_eq!(Fe::from_limbs([7, 0, 0, 0]), Fe::from_u64(7));
}

#[test]
fn canonicality_is_decidable() {
    // The largest canonical element is accepted ...
    assert!(order_minus_one().is_canonical());
    // ... the field order itself, and anything above, is not.
    let order = [
        0x992d30ed00000001,
        0x224698fc094cf91b,
        0x0000000000000000,
        0x4000000000000000,
    ];
    assert!(Fe::checked_from_limbs(order).is_none());
    assert!(Fe::checked_from_limbs([0, 0, 0, u64::MAX]).is_none());
    assert_eq!(Fe::checked_from_limbs([9, 0, 0, 0]), Some(Fe::from_u64(9)));
}

#[test]
fn field_add_small() {
    assert_eq!(val_add(&known(3), &known(4)), known(7));
}

#[test]
fn field_add_wraps() {
    // (order - 1) + 2 == 1 in the field.
    assert_eq!(val_add(&Val::Known(order_minus_one()), &known(2)), known(1));
}

#[test]
fn field_sub_small() {
    assert_eq!(val_sub(&known(9), &known(5)), known(4));
    assert_eq!(val_sub(&known(1), &known(1)), known(0));
}

#[test]
fn field_sub_wraps() {
    // 0 - 1 == order - 1 in the field.
    assert_eq!(val_sub(&known(0), &known(1)), Val::Known(order_minus_one()));
}

#[test]
fn field_mul_small() {
    assert_eq!(val_mul(&known(3), &known(5)), known(15));
    assert_eq!(val_mul(&known(11), &known(0)), known(0));
}

#[test]
fn lifted_ops_known() {
    assert_eq!(val_add(&known(2), &known(3)), known(5));
    assert_eq!(val_sub(&known(5), &known(3)), known(2));
    assert_eq!(val_mul(&known(2), &known(3)), known(6));
}

#[test]
fn lifted_ops_unknown() {
    assert_eq!(val_add(&known(2), &Val::Unknown), Val::Unknown);
    assert_eq!(val_sub(&Val::Unknown, &known(3)), Val::Unknown);
    assert_eq!(val_mul(&Val::Unknown, &Val::Unknown), Val::Unknown);
}

#[test]
fn mux_selects_with_boolean_selector() {
    let a = known(5);
    let b = known(7);
    assert_eq!(mux_value(&a, &b, &known(0)), a);
    assert_eq!(mux_value(&a, &b, &known(1)), b);
}

#[test]
fn mux_blends_with_nonboolean_selector() {
    // a * (1 - 2) + b * 2 == 2 * b - a: 1 * (-1) + 5 * 2 == 9.
    assert_eq!(mux_value(&known(1), &known(5), &known(2)), known(9));
}

#[test]
fn mux_unknown_propagates() {
    let a = known(5);
    let b = known(7);
    let s = known(1);
    assert_eq!(mux_value(&Val::Unknown, &b, &s), Val::Unknown);
    assert_eq!(mux_value(&a, &Val::Unknown, &s), Val::Unknown);
    assert_eq!(mux_value(&a, &b, &Val::Unknown), Val::Unknown);
}

#[test]
fn grid_synthesize_selects_b() {
    let a: Vec<Val> = (1..=8).map(known).collect();
    let b: Vec<Val> = (1..=8).map(|x| known(2 * x)).collect();
    let (grid, outs) = synthesize_grid(&a, &b, &known(1));
    assert_eq!(outs, b);
    for i in 0..8 {
        let row = grid.slots[i].as_ref().unwrap();
        assert_eq!(row.in_a, a[i]);
        assert_eq!(row.in_b, b[i]);
        assert_eq!(row.out, b[i]);
        assert_eq!(row.sel, known(1));
        assert!(row.active);
    }
}

#[test]
fn grid_synthesize_selects_a() {
    let a: Vec<Val> = (1..=8).map(known).collect();
    let b: Vec<Val> = (1..=8).map(|x| known(2 * x)).collect();
    let (_, outs) = synthesize_grid(&a, &b, &known(0));
    assert_eq!(outs, a);
}

#[test]
fn grid_assignments_do_not_interfere() {
    let mut grid = GridModel::new(3);
    let out0 = grid.assign_instance(0, &known(1), &known(2), &known(1));
    let snapshot0 = grid.slots[0];
    let out2 = grid.assign_instance(2, &known(3), &known(4), &known(0));
    assert_eq!(out0, known(2));
    assert_eq!(out2, known(3));
    // Binding instance 2 left instance 0's cells and instance 1's slot alone.
    assert_eq!(grid.slots[0], snapshot0);
    assert!(grid.slots[1].is_none());
    assert_eq!(
        grid.slots[2],
        Some(RowCells {
            in_a: known(3),
            in_b: known(4),
            out: known(3),
            sel: known(0),
            active: true,
        })
    );
}
