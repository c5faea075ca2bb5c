//! End-to-end scenarios: a full circuit of eight multiplexer rows, driven
//! through the host's floor planner and checked by the host's mock prover.

use std::cell::RefCell;

use halo2_proofs::circuit::{Layouter, SimpleFloorPlanner};
use halo2_proofs::dev::MockProver;
use halo2_proofs::plonk::{Circuit, ConstraintSystem, Error};
use pasta_curves::Fp;

use mux_gadget::chip::{ConstraintBuilder, MuxChip, MuxConfig, RegionBinder, RegionRef, RegistryRef};
use mux_gadget::field::Fe;
use mux_gadget::value::Val;

struct TestCircuit {
    a: Vec<Val>,
    b: Vec<Val>,
    sel: Val,
    outs: RefCell<Vec<Val>>,
}

impl Circuit<Fp> for TestCircuit {
    type Config = MuxConfig;
    type FloorPlanner = SimpleFloorPlanner;

    fn without_witnesses(&self) -> Self {
        TestCircuit {
            a: vec![Val::Unknown; self.a.len()],
            b: vec![Val::Unknown; self.b.len()],
            sel: Val::Unknown,
            outs: RefCell::new(Vec::new()),
        }
    }

    fn configure(meta: &mut ConstraintSystem<Fp>) -> MuxConfig {
        let mut builder = ConstraintBuilder::new(RegistryRef { inner: meta });
        MuxChip::configure(&mut builder)
    }

    fn synthesize(&self, config: MuxConfig, mut layouter: impl Layouter<Fp>) -> Result<(), Error> {
        let chip = MuxChip::new(config);
        for i in 0..self.a.len() {
            let out = layouter.namespace(|| format!("mux_{}", i)).assign_region(
                || "sel",
                |region| {
                    let mut binder = RegionBinder::new(RegionRef { inner: region });
                    chip.mux(&mut binder, &self.a[i], &self.b[i], &self.sel, 0)
                        .map(|o| o.value)
                        .map_err(|e| e.inner)
                },
            )?;
            self.outs.borrow_mut().push(out);
        }
        Ok(())
    }
}

fn known(x: u64) -> Val {
    Val::Known(Fe::from_u64(x))
}

fn run_scenario(a: [u64; 8], b: [u64; 8], sel: u64) -> Vec<Val> {
    let circuit = TestCircuit {
        a: a.iter().map(|x| known(*x)).collect(),
        b: b.iter().map(|x| known(*x)).collect(),
        sel: known(sel),
        outs: RefCell::new(Vec::new()),
    };
    let k: u32 = 6;
    MockProver::run(k, &circuit, vec![]).unwrap().assert_satisfied();
    circuit.outs.into_inner()
}

#[test]
fn test() {
    let a = [1, 2, 3, 4, 5, 6, 7, 8];
    let b = [2, 4, 6, 8, 10, 12, 14, 16];
    let outs = run_scenario(a, b, 1);
    assert_eq!(outs.len(), 8);
    for i in 0..8 {
        assert_eq!(outs[i], known(b[i]));
    }
}

#[test]
fn sel_zero_selects_a() {
    let a = [1, 2, 3, 4, 5, 6, 7, 8];
    let b = [2, 4, 6, 8, 10, 12, 14, 16];
    let outs = run_scenario(a, b, 0);
    for i in 0..8 {
        assert_eq!(outs[i], known(a[i]));
    }
}

#[test]
fn sel_two_blends() {
    // A non-boolean selector degrades the gadget to the linear blend
    // out = 2*b - a, and the polynomial identity is still satisfied.
    let a = [1, 2, 3, 4, 5, 6, 7, 8];
    let b = [2, 4, 6, 8, 10, 12, 14, 16];
    let outs = run_scenario(a, b, 2);
    for i in 0..8 {
        assert_eq!(outs[i], known(2 * b[i] - a[i]));
    }
}
