use wasm_mpi_rs::arena::MpiTranslation;
use wasm_mpi_rs::bridge::{
    comparison_from_native, finish_comm_compare, finish_comm_split, gethostname, write_hostname, Fault, MPI_Alloc_mem,
    MPI_Allreduce, MPI_Alltoall, MPI_Alltoallv, MPI_Barrier, MPI_Comm_compare, MPI_Comm_create,
    MPI_Comm_free, MPI_Comm_group, MPI_Comm_rank, MPI_Comm_split, MPI_Group_free,
    MPI_Group_range_incl, MPI_Irecv, MPI_Isend, MPI_Op_create, MPI_Recv, MPI_Send, MPI_Type_free,
    MPI_Wait, MPI_Waitall, wasm__cxa_throw,
};
use wasm_mpi_rs::consts::{MpiComparisonResult, MPI_COMM_NULL, MPI_COMM_WORLD, MPI_INT, MPI_SUM};
use wasm_mpi_rs::handles::{MpiComm, MpiDatatype, MpiGroup, MpiOp, MpiRequest, NativeDatatypes, NativeOps};
use wasm_mpi_rs::memory::read_i32;

const WORLD: MpiComm = MpiComm(0x1000);
const NULL: MpiComm = MpiComm(0x2000);

fn comms() -> MpiTranslation<MpiComm> {
    MpiTranslation::<MpiComm>::with_well_known(WORLD, MpiComm(0x1100), NULL)
}

fn datatypes() -> MpiTranslation<MpiDatatype> {
    let d = |v: usize| MpiDatatype(v);
    MpiTranslation::<MpiDatatype>::with_well_known(&NativeDatatypes {
        int8: d(1),
        int16: d(2),
        int32: d(3),
        int64: d(4),
        uint8: d(5),
        uint16: d(6),
        uint32: d(7),
        uint64: d(8),
        float: d(9),
        double: d(10),
        null: d(11),
    })
}

fn ops() -> MpiTranslation<MpiOp> {
    let o = |v: usize| MpiOp(v);
    MpiTranslation::<MpiOp>::with_well_known(&NativeOps {
        max: o(1),
        min: o(2),
        sum: o(3),
        prod: o(4),
        land: o(5),
        lor: o(6),
        band: o(7),
        bor: o(8),
    })
}

#[test]
fn send_resolves_datatype_and_communicator() {
    let mem = vec![0u8; 64];
    assert_eq!(MPI_Send(&comms(), &datatypes(), &mem, 8, MPI_INT, MPI_COMM_WORLD), Ok((MpiDatatype(3), WORLD)));
}

#[test]
fn unknown_handles_are_faults() {
    let mem = vec![0u8; 64];
    assert_eq!(MPI_Send(&comms(), &datatypes(), &mem, 8, 99, MPI_COMM_WORLD), Err(Fault::InvalidDatatype));
    assert_eq!(MPI_Send(&comms(), &datatypes(), &mem, 8, MPI_INT, 17), Err(Fault::InvalidComm));
    assert_eq!(MPI_Barrier(&comms(), 3), Err(Fault::InvalidComm));
    assert_eq!(
        MPI_Allreduce(&comms(), &datatypes(), &ops(), &mem, 0, 8, MPI_INT, 42, MPI_COMM_WORLD),
        Err(Fault::InvalidOp)
    );
    let mut groups: MpiTranslation<MpiGroup> = MpiTranslation::new();
    let mut m = vec![0u8; 64];
    assert_eq!(MPI_Group_range_incl(&mut groups, &mut m, 0, 1, 0, 16), Err(Fault::InvalidGroup));
}

#[test]
fn addresses_outside_memory_are_faults() {
    let mem = vec![0u8; 16];
    assert_eq!(MPI_Send(&comms(), &datatypes(), &mem, 16, MPI_INT, MPI_COMM_WORLD), Err(Fault::OutOfBounds));
    assert_eq!(MPI_Recv(&comms(), &datatypes(), &mem, 0, MPI_INT, MPI_COMM_WORLD, 13), Err(Fault::OutOfBounds));
    assert_eq!(MPI_Comm_rank(&comms(), &mem, MPI_COMM_WORLD, 13), Err(Fault::OutOfBounds));
    assert_eq!(
        MPI_Alltoall(&comms(), &datatypes(), &mem, 0, MPI_INT, 13, MPI_INT, MPI_COMM_WORLD),
        Err(Fault::OutOfBounds)
    );
    assert_eq!(
        MPI_Alltoallv(&comms(), &datatypes(), &mem, 0, 0, 4, MPI_INT, 0, 8, 13, MPI_INT, MPI_COMM_WORLD),
        Err(Fault::OutOfBounds)
    );
}

#[test]
fn reduction_resolves_operator() {
    let mem = vec![0u8; 16];
    assert_eq!(
        MPI_Allreduce(&comms(), &datatypes(), &ops(), &mem, 0, 8, MPI_INT, MPI_SUM, MPI_COMM_WORLD),
        Ok((MpiDatatype(3), MpiOp(3), WORLD))
    );
}

#[test]
fn comm_create_allocates_and_writes_the_new_id() {
    let mut c = comms();
    let mut groups: MpiTranslation<MpiGroup> = MpiTranslation::new();
    let (gid, g) = groups.alloc_instance();
    *g = MpiGroup(0x30);
    let mut mem = vec![0u8; 16];
    let r = MPI_Comm_create(&mut c, &groups, &mut mem, MPI_COMM_WORLD, gid, 4);
    assert_eq!(r, Ok((WORLD, MpiGroup(0x30), 3)));
    assert_eq!(read_i32(&mem, 4), Some(3));
    assert!(c.get(3).is_some());
}

#[test]
fn comm_group_writes_a_fresh_group_id() {
    let mut groups: MpiTranslation<MpiGroup> = MpiTranslation::new();
    let mut mem = vec![0u8; 16];
    assert_eq!(MPI_Comm_group(&comms(), &mut groups, &mut mem, MPI_COMM_WORLD, 0), Ok((WORLD, 0)));
    assert_eq!(MPI_Comm_group(&comms(), &mut groups, &mut mem, MPI_COMM_WORLD, 8), Ok((WORLD, 1)));
    assert_eq!(read_i32(&mem, 0), Some(0));
    assert_eq!(read_i32(&mem, 8), Some(1));
}

#[test]
fn split_to_null_frees_the_entry_and_hands_out_the_null_id() {
    let mut c = comms();
    let mut mem = vec![0xffu8; 8];
    let (native, id) = MPI_Comm_split(&mut c, &mem, MPI_COMM_WORLD, 4).unwrap();
    assert_eq!(native, WORLD);
    assert_eq!(id, 3);
    assert_eq!(finish_comm_split(&mut c, &mut mem, 4, id, NULL, NULL), Ok(MPI_COMM_NULL));
    assert_eq!(read_i32(&mem, 4), Some(MPI_COMM_NULL));
    assert!(c.get(id).is_none());
    let (_, next) = MPI_Comm_split(&mut c, &mem, MPI_COMM_WORLD, 4).unwrap();
    assert_eq!(next, 4);
}

#[test]
fn split_to_a_communicator_stores_it() {
    let mut c = comms();
    let mut mem = vec![0u8; 8];
    let (_, id) = MPI_Comm_split(&mut c, &mem, MPI_COMM_WORLD, 0).unwrap();
    assert_eq!(finish_comm_split(&mut c, &mut mem, 0, id, MpiComm(0x77), NULL), Ok(id));
    assert_eq!(read_i32(&mem, 0), Some(id));
    assert_eq!(c.get(id), Some(&MpiComm(0x77)));
}

#[test]
fn comm_free_reads_the_id_and_removes_it() {
    let mut c = comms();
    let mut mem = vec![0u8; 8];
    let (_, id) = MPI_Comm_split(&mut c, &mem, MPI_COMM_WORLD, 0).unwrap();
    finish_comm_split(&mut c, &mut mem, 0, id, MpiComm(0x77), NULL).unwrap();
    assert_eq!(MPI_Comm_free(&mut c, &mem, 0), Ok((id, MpiComm(0x77))));
    assert!(c.get(id).is_none());
    assert_eq!(MPI_Comm_free(&mut c, &mem, 0), Err(Fault::InvalidComm));
    assert_eq!(MPI_Comm_free(&mut c, &mem, 6), Err(Fault::OutOfBounds));
}

#[test]
fn nonblocking_requests_are_allocated_and_waited_for() {
    let mut requests: MpiTranslation<MpiRequest> = MpiTranslation::new();
    let mut mem = vec![0u8; 32];
    let r = MPI_Isend(&comms(), &datatypes(), &mut requests, &mut mem, 0, MPI_INT, MPI_COMM_WORLD, 8);
    assert_eq!(r, Ok((MpiDatatype(3), WORLD, 0)));
    let r = MPI_Irecv(&comms(), &datatypes(), &mut requests, &mut mem, 0, MPI_INT, MPI_COMM_WORLD, 12);
    assert_eq!(r, Ok((MpiDatatype(3), WORLD, 1)));
    assert_eq!(read_i32(&mem, 12), Some(1));
    *requests.get_mut(1).unwrap() = MpiRequest(0x55);
    assert_eq!(MPI_Wait(&mut requests, &mem, 12, 16), Ok((1, MpiRequest(0x55))));
    assert_eq!(MPI_Wait(&mut requests, &mem, 12, 16), Err(Fault::InvalidRequest));
    assert_eq!(MPI_Wait(&mut requests, &mem, 8, 28), Err(Fault::OutOfBounds));
}

#[test]
fn group_free_and_range_inclusion() {
    let mut groups: MpiTranslation<MpiGroup> = MpiTranslation::new();
    let mut mem = vec![0u8; 40];
    let (gid, _) = groups.alloc_instance();
    assert_eq!(MPI_Group_range_incl(&mut groups, &mut mem, gid, 2, 0, 24), Ok((MpiGroup(0), 1)));
    assert_eq!(read_i32(&mem, 24), Some(1));
    assert_eq!(MPI_Group_range_incl(&mut groups, &mut mem, gid, 3, 8, 24), Err(Fault::OutOfBounds));
    assert_eq!(MPI_Group_range_incl(&mut groups, &mut mem, gid, -1, 0, 24), Err(Fault::OutOfBounds));
    assert_eq!(MPI_Group_free(&mut groups, &mem, 24), Ok((1, MpiGroup(0))));
    assert!(groups.get(1).is_none());
}

#[test]
fn comparison_outcome_is_written_as_its_code() {
    let mut mem = vec![0u8; 8];
    assert_eq!(MPI_Comm_compare(&comms(), &mem, MPI_COMM_WORLD, 1, 4), Ok((WORLD, MpiComm(0x1100))));
    assert_eq!(finish_comm_compare(&mut mem, 4, MpiComparisonResult::MPI_UNEQUAL), Ok(0));
    assert_eq!(read_i32(&mem, 4), Some(3));
    assert_eq!(finish_comm_compare(&mut mem, 4, MpiComparisonResult::MPI_CONGRUENT), Ok(0));
    assert_eq!(read_i32(&mem, 4), Some(1));
}

#[test]
fn allocated_address_is_written_back() {
    let mut mem = vec![0u8; 8];
    assert_eq!(MPI_Alloc_mem(&mut mem, 4, 0x8000_0010), Ok(0));
    assert_eq!(mem[4..8], [0x10, 0, 0, 0x80]);
    assert_eq!(MPI_Alloc_mem(&mut mem, 5, 1), Err(Fault::OutOfBounds));
}

#[test]
fn host_name_is_copied_without_terminator() {
    let mut mem = vec![0xaau8; 8];
    assert_eq!(write_hostname(&mut mem, 1, 5, b"node"), Ok(0));
    assert_eq!(mem, vec![0xaa, b'n', b'o', b'd', b'e', 0xaa, 0xaa, 0xaa]);
    assert_eq!(write_hostname(&mut mem, 1, 3, b"node"), Err(Fault::BufferTooSmall));
    assert_eq!(write_hostname(&mut mem, 4, 5, b"node"), Err(Fault::OutOfBounds));
    assert_eq!(write_hostname(&mut mem, 0, -2, b""), Err(Fault::OutOfBounds));
}

#[test]
fn host_name_of_this_machine_fits_a_large_buffer() {
    let mut mem = vec![0u8; 300];
    assert_eq!(gethostname(&mut mem, 0, 256), Ok(0));
    assert_eq!(gethostname(&mut mem, 100, 256), Err(Fault::OutOfBounds));
}

#[test]
fn unsupported_operations_fail() {
    assert_eq!(MPI_Op_create(), Fault::Unsupported);
    assert_eq!(MPI_Type_free(), Fault::Unsupported);
    assert_eq!(MPI_Waitall(), Fault::Unsupported);
    assert_eq!(wasm__cxa_throw(), Fault::Exception);
}

#[test]
fn native_comparison_codes_map_to_outcomes() {
    assert_eq!(comparison_from_native(7, 5, 6, 7, 8), Some(MpiComparisonResult::MPI_SIMILAR));
    assert_eq!(comparison_from_native(5, 5, 6, 7, 8), Some(MpiComparisonResult::MPI_IDENT));
    assert_eq!(comparison_from_native(8, 5, 6, 7, 8), Some(MpiComparisonResult::MPI_UNEQUAL));
    assert_eq!(comparison_from_native(9, 5, 6, 7, 8), None);
}
