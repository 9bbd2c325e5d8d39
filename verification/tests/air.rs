use p3_matrix::dense::RowMajorMatrix;
use p3_miden_prover::air::{BaseAirWithAuxTrace, BusType, MidenAir, MidenAirBuilder};
use p3_miden_prover::field::Ext2;

struct PlainAir;

impl MidenAir for PlainAir {
    fn width(&self) -> usize {
        1
    }

    fn eval<AB: MidenAirBuilder>(&self, _builder: &mut AB) {}
}

impl BaseAirWithAuxTrace for PlainAir {}

#[test]
fn test_air_defaults() {
    let mut air = PlainAir;
    assert_eq!(MidenAir::width(&air), 1);
    assert!(air.preprocessed_trace().is_none());
    assert_eq!(air.num_public_values(), 0);
    assert!(air.periodic_table().is_empty());
    assert_eq!(MidenAir::num_randomness(&air), 0);
    assert_eq!(MidenAir::aux_width(&air), 0);
    assert!(MidenAir::bus_types(&air).is_empty());
    let main = RowMajorMatrix::new(vec![1u64, 2], 1);
    assert!(MidenAir::build_aux_trace(&air, &main, &[Ext2 { c0: 1, c1: 0 }]).is_none());
    MidenAir::with_aux_builder(&mut air, |m: &RowMajorMatrix<u64>, _c: &[Ext2]| m.clone());
    assert_eq!(BaseAirWithAuxTrace::num_randomness(&air), 0);
    assert_eq!(BaseAirWithAuxTrace::aux_width(&air), 0);
    assert!(BaseAirWithAuxTrace::bus_types(&air).is_empty());
    assert!(BaseAirWithAuxTrace::build_aux_trace(&air, &main, &[]).is_none());
    BaseAirWithAuxTrace::with_aux_builder(&mut air, |m: &RowMajorMatrix<u64>, _c: &[Ext2]| m.clone());
}

#[test]
fn test_bus_types() {
    let buses = [BusType::MultiSet, BusType::Logup];
    assert_ne!(buses[0], buses[1]);
}
