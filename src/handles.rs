//! Native resources as the handle tables hold them, and the tables with
//! their well-known entries.
//!
//! A native resource is kept as the integer that the native runtime uses to
//! name it (an address or a small integer, depending on the runtime).
use vstd::prelude::*;
use crate::arena::MpiTranslation;
use crate::consts::{
    MPI_BAND, MPI_BOR, MPI_BYTE, MPI_CHAR, MPI_COMM_NULL, MPI_COMM_SELF, MPI_COMM_WORLD,
    MPI_C_BOOL, MPI_DATATYPE_NULL, MPI_DOUBLE, MPI_DOUBLE_INT, MPI_FLOAT, MPI_INT, MPI_INT16_T,
    MPI_INT32_T, MPI_INT64_T, MPI_INT8_T, MPI_LAND, MPI_LONG, MPI_LONG_LONG, MPI_LONG_LONG_INT,
    MPI_LOR, MPI_MAX, MPI_MIN, MPI_PROD, MPI_SUM, MPI_UINT16_T, MPI_UINT32_T, MPI_UINT64_T,
    MPI_UINT8_T, MPI_UINT_T,
};

verus! {

/// A native communicator.
#[derive(Clone, Copy, Debug, PartialEq, Eq, Structural)]
pub struct MpiComm(pub usize);

/// A native datatype.
#[derive(Clone, Copy, Debug, PartialEq, Eq, Structural)]
pub struct MpiDatatype(pub usize);

/// A native process group.
#[derive(Clone, Copy, Debug, PartialEq, Eq, Structural)]
pub struct MpiGroup(pub usize);

/// A native reduction operator.
#[derive(Clone, Copy, Debug, PartialEq, Eq, Structural)]
pub struct MpiOp(pub usize);

/// A native request of a non-blocking operation.
#[derive(Clone, Copy, Debug, PartialEq, Eq, Structural)]
pub struct MpiRequest(pub usize);

impl Default for MpiComm {
    fn default() -> (r: Self)
        ensures
            r == MpiComm(0),
    {
        MpiComm(0)
    }
}

impl Default for MpiDatatype {
    fn default() -> (r: Self)
        ensures
            r == MpiDatatype(0),
    {
        MpiDatatype(0)
    }
}

impl Default for MpiGroup {
    fn default() -> (r: Self)
        ensures
            r == MpiGroup(0),
    {
        MpiGroup(0)
    }
}

impl Default for MpiOp {
    fn default() -> (r: Self)
        ensures
            r == MpiOp(0),
    {
        MpiOp(0)
    }
}

impl Default for MpiRequest {
    fn default() -> (r: Self)
        ensures
            r == MpiRequest(0),
    {
        MpiRequest(0)
    }
}

/// The native scalar datatypes that the well-known datatype ids stand for.
#[derive(Clone, Copy, Debug, PartialEq, Eq, Structural)]
pub struct NativeDatatypes {
    pub int8: MpiDatatype,
    pub int16: MpiDatatype,
    pub int32: MpiDatatype,
    pub int64: MpiDatatype,
    pub uint8: MpiDatatype,
    pub uint16: MpiDatatype,
    pub uint32: MpiDatatype,
    pub uint64: MpiDatatype,
    pub float: MpiDatatype,
    pub double: MpiDatatype,
    pub null: MpiDatatype,
}

/// The native reduction operators that the well-known operator ids stand for.
#[derive(Clone, Copy, Debug, PartialEq, Eq, Structural)]
pub struct NativeOps {
    pub max: MpiOp,
    pub min: MpiOp,
    pub sum: MpiOp,
    pub prod: MpiOp,
    pub land: MpiOp,
    pub lor: MpiOp,
    pub band: MpiOp,
    pub bor: MpiOp,
}

/// The well-known communicators, by id.
pub open spec fn well_known_comms(world: MpiComm, self_comm: MpiComm, null: MpiComm) -> Map<i32, MpiComm> {
    map![MPI_COMM_WORLD => world, MPI_COMM_SELF => self_comm, MPI_COMM_NULL => null]
}

/// The well-known datatypes, by id.
pub open spec fn well_known_datatypes(n: NativeDatatypes) -> Map<i32, MpiDatatype> {
    map![
        MPI_INT8_T => n.int8,
        MPI_INT16_T => n.int16,
        MPI_INT32_T => n.int32,
        MPI_INT => n.int32,
        MPI_INT64_T => n.int64,
        MPI_UINT8_T => n.uint8,
        MPI_UINT16_T => n.uint16,
        MPI_UINT32_T => n.uint32,
        MPI_UINT_T => n.uint32,
        MPI_UINT64_T => n.uint64,
        MPI_LONG => n.int64,
        MPI_LONG_LONG => n.int64,
        MPI_LONG_LONG_INT => n.int64,
        MPI_FLOAT => n.float,
        MPI_DOUBLE => n.double,
        MPI_DOUBLE_INT => n.double,
        MPI_CHAR => n.uint8,
        MPI_C_BOOL => n.uint8,
        MPI_BYTE => n.uint8,
        MPI_DATATYPE_NULL => n.null
    ]
}

/// The well-known reduction operators, by id.
pub open spec fn well_known_ops(n: NativeOps) -> Map<i32, MpiOp> {
    map![
        MPI_MAX => n.max,
        MPI_MIN => n.min,
        MPI_SUM => n.sum,
        MPI_PROD => n.prod,
        MPI_LAND => n.land,
        MPI_LOR => n.lor,
        MPI_BAND => n.band,
        MPI_BOR => n.bor
    ]
}

impl MpiTranslation<MpiComm> {
    /// The communicator table with the world, self and null communicators;
    /// allocation starts right after them.
    pub fn with_well_known(world: MpiComm, self_comm: MpiComm, null: MpiComm) -> (r: Self)
        ensures
            r.wf(),
            r@ == well_known_comms(world, self_comm, null),
            r.spec_next_id() == 3,
    {
        let mut t = MpiTranslation::with_next_id(3);
        t.seed(MPI_COMM_WORLD, world);
        t.seed(MPI_COMM_SELF, self_comm);
        t.seed(MPI_COMM_NULL, null);
        assert(t@ =~= well_known_comms(world, self_comm, null));
        t
    }
}

impl MpiTranslation<MpiDatatype> {
    /// The datatype table with the standard scalar datatypes; allocation
    /// starts right after the last of them.
    pub fn with_well_known(n: &NativeDatatypes) -> (r: Self)
        ensures
            r.wf(),
            r@ == well_known_datatypes(*n),
            r.spec_next_id() == 19,
    {
        let mut t = MpiTranslation::with_next_id(19);
        t.seed(MPI_INT8_T, n.int8);
        t.seed(MPI_INT16_T, n.int16);
        t.seed(MPI_INT32_T, n.int32);
        t.seed(MPI_INT, n.int32);
        t.seed(MPI_INT64_T, n.int64);
        t.seed(MPI_UINT8_T, n.uint8);
        t.seed(MPI_UINT16_T, n.uint16);
        t.seed(MPI_UINT32_T, n.uint32);
        t.seed(MPI_UINT_T, n.uint32);
        t.seed(MPI_UINT64_T, n.uint64);
        t.seed(MPI_LONG, n.int64);
        t.seed(MPI_LONG_LONG, n.int64);
        t.seed(MPI_LONG_LONG_INT, n.int64);
        t.seed(MPI_FLOAT, n.float);
        t.seed(MPI_DOUBLE, n.double);
        t.seed(MPI_DOUBLE_INT, n.double);
        t.seed(MPI_CHAR, n.uint8);
        t.seed(MPI_C_BOOL, n.uint8);
        t.seed(MPI_BYTE, n.uint8);
        t.seed(MPI_DATATYPE_NULL, n.null);
        assert(t@ =~= well_known_datatypes(*n));
        t
    }
}

impl MpiTranslation<MpiOp> {
    /// The operator table with the standard reductions; allocation starts two
    /// ids after the last of them, which stay reserved for the location
    /// reductions.
    pub fn with_well_known(n: &NativeOps) -> (r: Self)
        ensures
            r.wf(),
            r@ == well_known_ops(*n),
            r.spec_next_id() == 10,
    {
        let mut t = MpiTranslation::with_next_id(10);
        t.seed(MPI_MAX, n.max);
        t.seed(MPI_MIN, n.min);
        t.seed(MPI_SUM, n.sum);
        t.seed(MPI_PROD, n.prod);
        t.seed(MPI_LAND, n.land);
        t.seed(MPI_LOR, n.lor);
        t.seed(MPI_BAND, n.band);
        t.seed(MPI_BOR, n.bor);
        assert(t@ =~= well_known_ops(*n));
        t
    }
}

} // verus!
