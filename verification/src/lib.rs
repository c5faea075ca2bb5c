//! A conditional-selection ("multiplexer") gadget for a row/column-based
//! arithmetic circuit: `out = a` when `sel = 0` and `out = b` when `sel = 1`,
//! realised as the polynomial gate `s * ((1 - sel) * in_a + sel * in_b - out)`.
//!
//! `field` models field elements by their canonical limbs; `value` lifts the
//! field arithmetic over possibly-unknown circuit values and proves the
//! multiplexer's algebraic laws; `model` proves the row-assignment protocol
//! over a model of the grid; `chip` carries the gadget to the host
//! constraint-system framework.

pub mod chip;
pub mod field;
pub mod model;
pub mod value;
