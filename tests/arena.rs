use wasm_mpi_rs::arena::MpiTranslation;
use wasm_mpi_rs::consts::{
    MPI_BYTE, MPI_COMM_NULL, MPI_COMM_SELF, MPI_COMM_WORLD, MPI_DATATYPE_NULL, MPI_DOUBLE, MPI_INT,
    MPI_INT32_T, MPI_LONG, MPI_MAX, MPI_SUM, MPI_BOR, MPI_UINT_T,
};
use wasm_mpi_rs::handles::{MpiComm, MpiDatatype, MpiGroup, MpiOp, NativeDatatypes, NativeOps};

fn natives() -> NativeDatatypes {
    NativeDatatypes {
        int8: MpiDatatype(108),
        int16: MpiDatatype(116),
        int32: MpiDatatype(132),
        int64: MpiDatatype(164),
        uint8: MpiDatatype(208),
        uint16: MpiDatatype(216),
        uint32: MpiDatatype(232),
        uint64: MpiDatatype(264),
        float: MpiDatatype(300),
        double: MpiDatatype(400),
        null: MpiDatatype(0),
    }
}

fn ops() -> NativeOps {
    NativeOps {
        max: MpiOp(10),
        min: MpiOp(11),
        sum: MpiOp(12),
        prod: MpiOp(13),
        land: MpiOp(14),
        lor: MpiOp(15),
        band: MpiOp(16),
        bor: MpiOp(17),
    }
}

#[test]
fn new_table_is_empty_and_starts_at_zero() {
    let mut t: MpiTranslation<MpiGroup> = MpiTranslation::new();
    assert_eq!(t.next_id(), 0);
    assert!(t.get(0).is_none());
    let (id, g) = t.alloc_instance();
    assert_eq!(id, 0);
    assert_eq!(*g, MpiGroup(0));
    assert_eq!(t.get(0), Some(&MpiGroup(0)));
}

#[test]
fn allocations_increase_and_are_never_reused() {
    let mut t: MpiTranslation<MpiGroup> = MpiTranslation::new();
    let (a, _) = t.alloc_instance();
    let (b, _) = t.alloc_instance();
    assert!(a < b);
    t.free_instance(b);
    t.free_instance(a);
    let (c, _) = t.alloc_instance();
    assert!(c > b);
    assert_eq!(c, 2);
}

#[test]
fn freed_id_no_longer_resolves() {
    let mut t: MpiTranslation<MpiGroup> = MpiTranslation::new();
    let (a, g) = t.alloc_instance();
    *g = MpiGroup(77);
    assert_eq!(t.get(a), Some(&MpiGroup(77)));
    t.free_instance(a);
    assert!(t.get(a).is_none());
    assert!(t.get_mut(a).is_none());
}

#[test]
fn get_mut_changes_the_entry() {
    let mut t: MpiTranslation<MpiGroup> = MpiTranslation::new();
    let (a, _) = t.alloc_instance();
    *t.get_mut(a).unwrap() = MpiGroup(5);
    assert_eq!(t.get(a), Some(&MpiGroup(5)));
}

#[test]
fn well_known_communicators_resolve_without_allocation() {
    let mut t = MpiTranslation::<MpiComm>::with_well_known(MpiComm(1000), MpiComm(1001), MpiComm(0));
    assert_eq!(t.get(MPI_COMM_WORLD), Some(&MpiComm(1000)));
    assert_eq!(t.get(MPI_COMM_SELF), Some(&MpiComm(1001)));
    assert_eq!(t.get(MPI_COMM_NULL), Some(&MpiComm(0)));
    assert!(t.get(3).is_none());
    let (id, _) = t.alloc_instance();
    assert_eq!(id, 3);
}

#[test]
fn well_known_datatypes_resolve_without_allocation() {
    let mut t = MpiTranslation::<MpiDatatype>::with_well_known(&natives());
    assert_eq!(t.get(MPI_INT32_T), Some(&MpiDatatype(132)));
    assert_eq!(t.get(MPI_INT), Some(&MpiDatatype(132)));
    assert_eq!(t.get(MPI_UINT_T), Some(&MpiDatatype(232)));
    assert_eq!(t.get(MPI_LONG), Some(&MpiDatatype(164)));
    assert_eq!(t.get(MPI_DOUBLE), Some(&MpiDatatype(400)));
    assert_eq!(t.get(MPI_BYTE), Some(&MpiDatatype(208)));
    assert_eq!(t.get(MPI_DATATYPE_NULL), Some(&MpiDatatype(0)));
    assert!(t.get(19).is_none());
    let (id, _) = t.alloc_instance();
    assert_eq!(id, 19);
}

#[test]
fn well_known_operators_resolve_without_allocation() {
    let mut t = MpiTranslation::<MpiOp>::with_well_known(&ops());
    assert_eq!(t.get(MPI_MAX), Some(&MpiOp(10)));
    assert_eq!(t.get(MPI_SUM), Some(&MpiOp(12)));
    assert_eq!(t.get(MPI_BOR), Some(&MpiOp(17)));
    assert!(t.get(8).is_none());
    let (id, _) = t.alloc_instance();
    assert_eq!(id, 10);
}
