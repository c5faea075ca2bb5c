//! The multiplexer gadget against the host constraint system.
//!
//! `configure` declares the gadget's columns against the host once per
//! circuit and registers its one gate, whose polynomial is
//! `s * ((1 - sel) * in_a + sel * in_b - out)`. `mux` binds one gadget
//! instance's row: it turns the selector switch on there, binds the selector
//! value and the two inputs, computes the multiplexed output, binds it, and
//! hands the bound output cell back so that later gates can take it as an
//! input. The host performs the actual storage; what each call asked of the
//! host is mirrored in a ghost model — a registry model on
//! `ConstraintBuilder`, a bindings model on `RegionBinder` — maintained by
//! the trusted wrappers' contracts, so that `configure` and `mux` can state
//! exactly which handles were allocated, which gate was registered, and
//! which cells were bound.
//!
//! Several host types (`ConstraintSystem`, `Region`, `Column`,
//! `AssignedCell`) have their generics bounded by host traits, which Verus
//! cannot name; each is therefore held opaquely inside a struct of the
//! library (`RegistryRef`, `RegionRef`, `AdviceColumn`, `FixedColumn`,
//! `OutCell`), whose `inner` field hands the host value back to callers
//! outside the library.

use vstd::prelude::*;
use crate::value::{Val, mux_spec, mux_value};
use halo2_proofs::circuit::{AssignedCell, Region, Value};
use halo2_proofs::plonk::{Advice, Column, ConstraintSystem, Error, Expression, Fixed, Selector};
use halo2_proofs::poly::Rotation;
use pasta_curves::Fp;

verus! {

/// The host's field element type (the Pallas base field).
#[verifier::external_type_specification]
#[verifier::external_body]
pub struct ExFp(Fp);

/// A handle to one per-row gate-activation switch.
#[verifier::external_type_specification]
#[verifier::external_body]
pub struct ExSelector(Selector);

/// The host's error type, surfaced verbatim on any binding failure.
#[verifier::external_type_specification]
#[verifier::external_body]
pub struct ExError(Error);

/// The host's container for a value that may be unknown during
/// shape-only compilation.
#[verifier::external_type_specification]
#[verifier::external_body]
#[verifier::reject_recursive_types(V)]
pub struct ExValue<V>(Value<V>);

/// The host's mutable constraint-system registry, held opaquely.
#[verifier::external_body]
pub struct RegistryRef<'a> {
    /// The host's registry.
    pub inner: &'a mut ConstraintSystem<Fp>,
}

/// The host's binder for one scoped region, held opaquely.
#[verifier::external_body]
pub struct RegionRef<'r> {
    /// The host's binder.
    pub inner: Region<'r, Fp>,
}

/// A handle to one witness ("advice") column, held opaquely.
#[verifier::external_body]
pub struct AdviceColumn {
    /// The host's column handle.
    pub inner: Column<Advice>,
}

/// A handle to one fixed column, held opaquely.
#[verifier::external_body]
pub struct FixedColumn {
    /// The host's column handle.
    pub inner: Column<Fixed>,
}

/// A cell bound in the host's grid, held opaquely; later gates can take it
/// as an input.
#[verifier::external_body]
pub struct OutCell {
    /// The host's bound cell.
    pub inner: AssignedCell<Fp, Fp>,
}

/// The model of one registered multiplexer gate: its activation switch, the
/// fixed column carrying the selector value, and the three witness columns
/// that its polynomial, `s * ((1 - sel) * in_a + sel * in_b - out)`, queries
/// at the current row.
pub struct MuxGateModel {
    pub s: Selector,
    pub sel: FixedColumn,
    pub in_a: AdviceColumn,
    pub in_b: AdviceColumn,
    pub out: AdviceColumn,
}

/// The model of what has been asked of the host's registry through one
/// `ConstraintBuilder`: the handles allocated, in allocation order, and the
/// mux gates registered.
pub struct RegistryModel {
    /// Witness column handles allocated, in order.
    pub advice: Seq<AdviceColumn>,
    /// Fixed column handles allocated, in order.
    pub fixed: Seq<FixedColumn>,
    /// Selector handles allocated, in order.
    pub selectors: Seq<Selector>,
    /// Mux gates registered, in order.
    pub gates: Seq<MuxGateModel>,
}

impl RegistryModel {
    /// The model of a capability through which nothing has been asked yet.
    pub open spec fn empty() -> RegistryModel {
        RegistryModel {
            advice: Seq::empty(),
            fixed: Seq::empty(),
            selectors: Seq::empty(),
            gates: Seq::empty(),
        }
    }
}

/// A capability to declare columns and gates: the host's registry together
/// with the model of what this capability has asked of it.
pub struct ConstraintBuilder<'a> {
    /// The host's registry this capability writes to.
    pub registry: RegistryRef<'a>,
    /// The model of the handles allocated and gates registered through this
    /// capability.
    pub model: Ghost<RegistryModel>,
}

impl<'a> ConstraintBuilder<'a> {
    /// A fresh capability over the host's registry; its model starts empty,
    /// counting only what is asked through it.
    pub fn new(registry: RegistryRef<'a>) -> (r: ConstraintBuilder<'a>)
        ensures
            r.model@ == RegistryModel::empty(),
    {
        ConstraintBuilder { registry, model: Ghost(RegistryModel::empty()) }
    }
}

/// The model of one region's bindings: which (switch, row) activations were
/// made, and the value bound to each (column, row) cell. A later binding to
/// the same cell overwrites the earlier one.
pub struct RegionModel {
    /// The activation switches turned on, by switch and row.
    pub enabled: Set<(Selector, int)>,
    /// The value bound to each fixed-column cell.
    pub fixed: Map<(FixedColumn, int), Val>,
    /// The value bound to each witness-column cell.
    pub advice: Map<(AdviceColumn, int), Val>,
}

impl RegionModel {
    /// The model of a region in which nothing has been bound yet.
    pub open spec fn empty() -> RegionModel {
        RegionModel { enabled: Set::empty(), fixed: Map::empty(), advice: Map::empty() }
    }
}

/// A capability to bind cells of one scoped region: the host's binder
/// together with the model of the bindings made through it.
pub struct RegionBinder<'r> {
    /// The host's binder for this region.
    pub region: RegionRef<'r>,
    /// The model of the activations and cell bindings made through this
    /// capability.
    pub model: Ghost<RegionModel>,
}

impl<'r> RegionBinder<'r> {
    /// A fresh capability over the host's region binder; its model starts
    /// empty, recording only what is bound through it.
    pub fn new(region: RegionRef<'r>) -> (r: RegionBinder<'r>)
        ensures
            r.model@ == RegionModel::empty(),
    {
        RegionBinder { region, model: Ghost(RegionModel::empty()) }
    }
}

/// The gadget's configuration: the handles the host allocated for its three
/// witness columns, its fixed selector-value column, and its gate-activation
/// switch.
pub struct MuxConfig {
    /// The witness columns, in the order `in_a`, `in_b`, `out`.
    pub advice: [AdviceColumn; 3],
    /// The fixed column carrying the publicly-known selector value.
    pub sel: FixedColumn,
    /// The per-row activation switch of the gadget's gate.
    pub s: Selector,
}

impl MuxConfig {
    /// The model of this configuration's mux gate: its polynomial queries
    /// the fixed column and the three witness columns, under the selector
    /// switch.
    pub open spec fn gate(self) -> MuxGateModel {
        MuxGateModel {
            s: self.s,
            sel: self.sel,
            in_a: self.advice[0],
            in_b: self.advice[1],
            out: self.advice[2],
        }
    }
}

impl Clone for MuxConfig {
    /// Relies on the host's column and selector handles being `Copy`: the
    /// clone holds the same handles.
    #[verifier::external_body]
    fn clone(&self) -> (r: MuxConfig)
        ensures
            r == *self,
    {
        MuxConfig {
            advice: [
                AdviceColumn { inner: self.advice[0].inner },
                AdviceColumn { inner: self.advice[1].inner },
                AdviceColumn { inner: self.advice[2].inner },
            ],
            sel: FixedColumn { inner: self.sel.inner },
            s: self.s,
        }
    }
}

/// An error from the host during row binding, carried unchanged.
pub struct MuxError {
    /// The host's error, surfaced verbatim.
    pub inner: Error,
}

/// The result of one successful mux invocation: the bound output cell, so
/// that later gates can take it as an input, and the value bound to it.
pub struct MuxOutput {
    /// The output cell as bound in the host's grid.
    pub cell: OutCell,
    /// The value this library computed and bound to the cell.
    pub value: Val,
}

/// Relies on `ConstraintSystem::advice_column` allocating a fresh witness
/// column (it bumps a counter, so the handle differs from every one handed
/// out before) and returning its handle.
#[verifier::external_body]
fn new_advice_column(meta: &mut ConstraintBuilder<'_>) -> (r: AdviceColumn)
    ensures
        final(meta).model@.advice == old(meta).model@.advice.push(r),
        forall|j: int| 0 <= j < old(meta).model@.advice.len()
            ==> old(meta).model@.advice[j] != r,
        final(meta).model@.fixed == old(meta).model@.fixed,
        final(meta).model@.selectors == old(meta).model@.selectors,
        final(meta).model@.gates == old(meta).model@.gates,
{
    AdviceColumn { inner: meta.registry.inner.advice_column() }
}

/// Relies on `ConstraintSystem::fixed_column` allocating a fresh fixed
/// column and returning its handle.
#[verifier::external_body]
fn new_fixed_column(meta: &mut ConstraintBuilder<'_>) -> (r: FixedColumn)
    ensures
        final(meta).model@.fixed == old(meta).model@.fixed.push(r),
        final(meta).model@.advice == old(meta).model@.advice,
        final(meta).model@.selectors == old(meta).model@.selectors,
        final(meta).model@.gates == old(meta).model@.gates,
{
    FixedColumn { inner: meta.registry.inner.fixed_column() }
}

/// Relies on `ConstraintSystem::selector` allocating a fresh simple selector
/// and returning its handle.
#[verifier::external_body]
fn new_selector(meta: &mut ConstraintBuilder<'_>) -> (r: Selector)
    ensures
        final(meta).model@.selectors == old(meta).model@.selectors.push(r),
        final(meta).model@.advice == old(meta).model@.advice,
        final(meta).model@.fixed == old(meta).model@.fixed,
        final(meta).model@.gates == old(meta).model@.gates,
{
    meta.registry.inner.selector()
}

/// Relies on `ConstraintSystem::create_gate` registering the one returned
/// polynomial, here exactly `s * ((1 - sel) * in_a + sel * in_b - out)` with
/// every query at the current row, as an identity the host checks at each
/// row whose switch `s` is on.
#[verifier::external_body]
fn register_mux_gate(
    meta: &mut ConstraintBuilder<'_>,
    s: &Selector,
    sel_col: &FixedColumn,
    a_col: &AdviceColumn,
    b_col: &AdviceColumn,
    out_col: &AdviceColumn,
)
    ensures
        final(meta).model@.gates == old(meta).model@.gates.push(MuxGateModel {
            s: *s,
            sel: *sel_col,
            in_a: *a_col,
            in_b: *b_col,
            out: *out_col,
        }),
        final(meta).model@.advice == old(meta).model@.advice,
        final(meta).model@.fixed == old(meta).model@.fixed,
        final(meta).model@.selectors == old(meta).model@.selectors,
{
    let s = *s;
    meta.registry.inner.create_gate("mux", |m| {
        let s = m.query_selector(s);
        let a = m.query_advice(a_col.inner, Rotation::cur());
        let b = m.query_advice(b_col.inner, Rotation::cur());
        let out = m.query_advice(out_col.inner, Rotation::cur());
        let sel = m.query_fixed(sel_col.inner);
        let one = Expression::Constant(Fp::one());
        let not_sel = one - sel.clone();
        let blend = not_sel * a + sel * b;
        let poly = blend - out;
        vec![s * poly]
    });
}

/// Relies on `Value::known` and `Value::unknown` wrapping a present and an
/// absent value, and on `Fp::from_raw` reading canonical little-endian limbs.
#[verifier::external_body]
fn val_to_value(v: &Val) -> Value<Fp> {
    match v {
        Val::Known(fe) => Value::known(Fp::from_raw(fe.limbs)),
        Val::Unknown => Value::unknown(),
    }
}

/// Relies on `Selector::enable` turning the switch on at the region's given
/// row, failing only with the host's own error.
#[verifier::external_body]
fn enable_mux_selector(
    s: &Selector,
    region: &mut RegionBinder<'_>,
    row: usize,
) -> (r: Result<(), Error>)
    ensures
        r is Ok ==> final(region).model@.enabled
            == old(region).model@.enabled.insert((*s, row as int)),
        r is Ok ==> final(region).model@.fixed == old(region).model@.fixed,
        r is Ok ==> final(region).model@.advice == old(region).model@.advice,
{
    s.enable(&mut region.region.inner, row)
}

/// Relies on `Region::assign_fixed` binding the given value — converted for
/// the host by `val_to_value` — to the fixed column's cell at the given row,
/// returning the bound cell.
#[verifier::external_body]
fn assign_fixed_cell(
    region: &mut RegionBinder<'_>,
    col: &FixedColumn,
    row: usize,
    v: &Val,
    name: &'static str,
) -> (r: Result<OutCell, Error>)
    requires
        v.wf(),
    ensures
        r is Ok ==> final(region).model@.fixed
            == old(region).model@.fixed.insert((*col, row as int), *v),
        r is Ok ==> final(region).model@.enabled == old(region).model@.enabled,
        r is Ok ==> final(region).model@.advice == old(region).model@.advice,
{
    let value = val_to_value(v);
    region.region.inner.assign_fixed(|| name, col.inner, row, || value).map(|c| OutCell {
        inner: c,
    })
}

/// Relies on `Region::assign_advice` binding the given value — converted for
/// the host by `val_to_value` — to the witness column's cell at the given
/// row, returning the bound cell.
#[verifier::external_body]
fn assign_advice_cell(
    region: &mut RegionBinder<'_>,
    col: &AdviceColumn,
    row: usize,
    v: &Val,
    name: &'static str,
) -> (r: Result<OutCell, Error>)
    requires
        v.wf(),
    ensures
        r is Ok ==> final(region).model@.advice
            == old(region).model@.advice.insert((*col, row as int), *v),
        r is Ok ==> final(region).model@.enabled == old(region).model@.enabled,
        r is Ok ==> final(region).model@.fixed == old(region).model@.fixed,
{
    let value = val_to_value(v);
    region.region.inner.assign_advice(|| name, col.inner, row, || value).map(|c| OutCell {
        inner: c,
    })
}

/// The identity over a region's bound cells: at `row`, wherever gate `g`'s
/// switch is on, all four of its cells are bound, and the value in `g.out`
/// is exactly the multiplexed value of those in `g.in_a` and `g.in_b` under
/// the selector value in `g.sel`.
pub open spec fn gate_identity_at(g: MuxGateModel, rm: RegionModel, row: int) -> bool {
    rm.enabled.contains((g.s, row)) ==> {
        &&& rm.fixed.contains_key((g.sel, row))
        &&& rm.advice.contains_key((g.in_a, row))
        &&& rm.advice.contains_key((g.in_b, row))
        &&& rm.advice.contains_key((g.out, row))
        &&& rm.advice[(g.out, row)]@ == mux_spec(
            rm.advice[(g.in_a, row)]@,
            rm.advice[(g.in_b, row)]@,
            rm.fixed[(g.sel, row)]@,
        )
    }
}

/// Correctness law on the host path: a region model updated the way a
/// successful `mux` call states — one activation, the selector value, the
/// two inputs and the multiplexed output each bound at `row` of a
/// configuration with pairwise distinct witness columns, as `configure`
/// returns — satisfies the configured gate's identity at that row, matching
/// what the grid model of this library proves row by row.
pub proof fn lemma_mux_binds_identity(
    config: MuxConfig,
    pre: RegionModel,
    post: RegionModel,
    a: Val,
    b: Val,
    sel: Val,
    out: Val,
    row: int,
)
    requires
        out@ == mux_spec(a@, b@, sel@),
        config.advice[0] != config.advice[1],
        config.advice[0] != config.advice[2],
        config.advice[1] != config.advice[2],
        post.enabled == pre.enabled.insert((config.s, row)),
        post.fixed == pre.fixed.insert((config.sel, row), sel),
        post.advice == pre.advice
            .insert((config.advice[0], row), a)
            .insert((config.advice[1], row), b)
            .insert((config.advice[2], row), out),
    ensures
        gate_identity_at(config.gate(), post, row),
{
}

/// The gadget chip: a stateless facade over its configuration.
pub struct MuxChip {
    config: MuxConfig,
}

impl MuxChip {
    /// The configuration this chip was built around.
    pub closed spec fn spec_config(self) -> MuxConfig {
        self.config
    }

    /// Wraps an already-built configuration; no further validation is done.
    pub fn new(config: MuxConfig) -> (r: MuxChip)
        ensures
            r.spec_config() == config,
    {
        MuxChip { config }
    }

    /// The configuration this chip was built around.
    pub fn config(&self) -> (r: &MuxConfig)
        ensures
            *r == self.spec_config(),
    {
        &self.config
    }

    /// Declares the gadget's columns against the host constraint system and
    /// registers its one gate. Exactly three witness columns, one fixed
    /// column and one selector are allocated, the three witness columns
    /// pairwise distinct, and the returned configuration captures exactly
    /// those handles, in allocation order; exactly one mux gate is
    /// registered, querying those very handles, with the polynomial
    /// `s * ((1 - sel) * in_a + sel * in_b - out)`. To be invoked once per
    /// circuit compilation; the returned configuration is reused by every
    /// chip instance.
    pub fn configure(meta: &mut ConstraintBuilder<'_>) -> (r: MuxConfig)
        ensures
            final(meta).model@.advice == old(meta).model@.advice
                .push(r.advice[0]).push(r.advice[1]).push(r.advice[2]),
            final(meta).model@.fixed == old(meta).model@.fixed.push(r.sel),
            final(meta).model@.selectors == old(meta).model@.selectors.push(r.s),
            final(meta).model@.gates == old(meta).model@.gates.push(r.gate()),
            r.advice[0] != r.advice[1],
            r.advice[0] != r.advice[2],
            r.advice[1] != r.advice[2],
    {
        let ghost m0 = meta.model@;
        let a_col = new_advice_column(meta);
        let ghost m1 = meta.model@;
        let b_col = new_advice_column(meta);
        let ghost m2 = meta.model@;
        let out_col = new_advice_column(meta);
        proof {
            assert(m1.advice[m0.advice.len() as int] == a_col);
            assert(m2.advice[m0.advice.len() as int] == a_col);
            assert(m2.advice[m1.advice.len() as int] == b_col);
        }
        let s = new_selector(meta);
        let sel = new_fixed_column(meta);
        register_mux_gate(meta, &s, &sel, &a_col, &b_col, &out_col);
        MuxConfig { advice: [a_col, b_col, out_col], sel, s }
    }

    /// Binds one gadget instance at `row` of the given region: turns the
    /// configuration's switch on there, binds `sel` into the fixed column
    /// and `a`, `b` and the multiplexed output into the three witness
    /// columns, and returns the bound output cell. Any binding failure from
    /// the host aborts the call and is surfaced verbatim; on success the
    /// returned value is exactly `a * (1 - sel) + b * sel`, unknown whenever
    /// any input is unknown, and the region's model shows exactly the one
    /// activation and the four bindings.
    pub fn mux(
        &self,
        region: &mut RegionBinder<'_>,
        a: &Val,
        b: &Val,
        sel: &Val,
        row: usize,
    ) -> (r: Result<MuxOutput, MuxError>)
        requires
            a.wf(),
            b.wf(),
            sel.wf(),
        ensures
            (r matches Ok(out) ==> out.value.wf() && out.value@ == mux_spec(a@, b@, sel@)),
            (r matches Ok(out) ==> final(region).model@.enabled
                == old(region).model@.enabled.insert((self.spec_config().s, row as int))),
            (r matches Ok(out) ==> final(region).model@.fixed
                == old(region).model@.fixed.insert((self.spec_config().sel, row as int), *sel)),
            (r matches Ok(out) ==> final(region).model@.advice == old(region).model@.advice
                .insert((self.spec_config().advice[0], row as int), *a)
                .insert((self.spec_config().advice[1], row as int), *b)
                .insert((self.spec_config().advice[2], row as int), out.value)),
    {
        match enable_mux_selector(&self.config.s, region, row) {
            Ok(()) => {}
            Err(e) => {
                return Err(MuxError { inner: e });
            }
        }
        let out = mux_value(a, b, sel);

        match assign_fixed_cell(region, &self.config.sel, row, sel, "sel") {
            Ok(_cell) => {}
            Err(e) => {
                return Err(MuxError { inner: e });
            }
        }
        match assign_advice_cell(region, &self.config.advice[0], row, a, "in_a") {
            Ok(_cell) => {}
            Err(e) => {
                return Err(MuxError { inner: e });
            }
        }
        match assign_advice_cell(region, &self.config.advice[1], row, b, "in_b") {
            Ok(_cell) => {}
            Err(e) => {
                return Err(MuxError { inner: e });
            }
        }
        match assign_advice_cell(region, &self.config.advice[2], row, &out, "out") {
            Ok(cell) => Ok(MuxOutput { cell, value: out }),
            Err(e) => Err(MuxError { inner: e }),
        }
    }
}

} // verus!
