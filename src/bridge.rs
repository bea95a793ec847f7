//! The primitives that sandboxed code calls. Each one resolves its handle
//! arguments through the matching table and its pointer arguments through
//! the memory accessor, and hands back the native values that the native
//! call is then made with. Operations that create a resource allocate its
//! id here and write it to sandbox memory.
//!
//! Every failure here is fatal to the sandboxed program: an unknown handle or
//! an address outside its memory means that it cannot be trusted to go on.
#![allow(non_snake_case)]
use vstd::prelude::*;
use crate::arena::{allocated, same_table, MpiTranslation};
use crate::consts::{MpiComparisonResult, MPI_COMM_NULL, MPI_SUCCESS};
use crate::handles::{MpiComm, MpiDatatype, MpiGroup, MpiOp, MpiRequest};
use crate::host::system_hostname;
use crate::memory::{check, check_signed, in_bounds, read_i32, u32_at, with_u32_at, write_bytes, write_i32};

verus! {

/// Why a call from sandboxed code cannot go on.
#[derive(Clone, Copy, Debug, PartialEq, Eq, Structural)]
pub enum Fault {
    /// An address range outside the sandbox's memory.
    OutOfBounds,
    InvalidComm,
    InvalidDatatype,
    InvalidGroup,
    InvalidOp,
    InvalidRequest,
    /// The host name does not fit in the buffer given for it.
    BufferTooSmall,
    /// The host name could not be read.
    NoHostname,
    /// A table has handed out every id it can.
    Exhausted,
    /// An operation that this bridge does not offer.
    Unsupported,
    /// Sandboxed code raised a C++ exception, which cannot be unwound here.
    Exception,
}

/// Whether `f` names one of the checks that failed.
pub open spec fn explains(
    f: Fault,
    ptrs_ok: bool,
    comms_ok: bool,
    datatypes_ok: bool,
    groups_ok: bool,
    ops_ok: bool,
    requests_ok: bool,
) -> bool {
    match f {
        Fault::OutOfBounds => !ptrs_ok,
        Fault::InvalidComm => !comms_ok,
        Fault::InvalidDatatype => !datatypes_ok,
        Fault::InvalidGroup => !groups_ok,
        Fault::InvalidOp => !ops_ok,
        Fault::InvalidRequest => !requests_ok,
        _ => false,
    }
}

/// Whether one item of `size` bytes at `at` lies inside `mem`.
pub open spec fn fits(mem: Seq<u8>, at: u32, size: int) -> bool {
    in_bounds(mem.len() as int, at, size, 1)
}

fn resolve<H: Copy>(t: &MpiTranslation<H>, id: i32, fault: Fault) -> (r: Result<H, Fault>)
    requires
        t.wf(),
    ensures
        match r {
            Ok(v) => t@.contains_key(id) && v == t@[id],
            Err(f) => !t@.contains_key(id) && f == fault,
        },
{
    match t.get(id) {
        Some(v) => Ok(*v),
        None => Err(fault),
    }
}

fn pointer(mem: &[u8], at: u32, size: u32) -> (r: Result<(), Fault>)
    ensures
        r is Ok <==> fits(mem@, at, size as int),
        r matches Err(f) ==> f == Fault::OutOfBounds,
{
    if check(mem, at, size, 1) {
        Ok(())
    } else {
        Err(Fault::OutOfBounds)
    }
}

/// Resolves the communicator of an abort.
pub fn MPI_Abort(comms: &MpiTranslation<MpiComm>, comm: i32) -> (r: Result<MpiComm, Fault>)
    requires
        comms.wf(),
    ensures
        r is Ok <==> comms@.contains_key(comm),
        r matches Ok(c) ==> c == comms@[comm],
        r matches Err(f) ==> f == Fault::InvalidComm,
{
    resolve(comms, comm, Fault::InvalidComm)
}

/// Resolves a barrier's communicator.
pub fn MPI_Barrier(comms: &MpiTranslation<MpiComm>, comm: i32) -> (r: Result<MpiComm, Fault>)
    requires
        comms.wf(),
    ensures
        r is Ok <==> comms@.contains_key(comm),
        r matches Ok(c) ==> c == comms@[comm],
        r matches Err(f) ==> f == Fault::InvalidComm,
{
    resolve(comms, comm, Fault::InvalidComm)
}

/// Checks the buffer and resolves the datatype and communicator of a
/// point-to-point send, a receive or a broadcast.
fn buffer_call(
    comms: &MpiTranslation<MpiComm>,
    datatypes: &MpiTranslation<MpiDatatype>,
    mem: &[u8],
    buf: u32,
    datatype: i32,
    comm: i32,
) -> (r: Result<(MpiDatatype, MpiComm), Fault>)
    requires
        comms.wf(),
        datatypes.wf(),
    ensures
        r is Ok <==> (fits(mem@, buf, 1) && datatypes@.contains_key(datatype)
            && comms@.contains_key(comm)),
        r matches Ok((d, c)) ==> d == datatypes@[datatype] && c == comms@[comm],
        r matches Err(f) ==> explains(
            f,
            fits(mem@, buf, 1),
            comms@.contains_key(comm),
            datatypes@.contains_key(datatype),
            true,
            true,
            true,
        ),
{
    match pointer(mem, buf, 1) {
        Ok(()) => {},
        Err(f) => return Err(f),
    }
    let d = match resolve(datatypes, datatype, Fault::InvalidDatatype) {
        Ok(d) => d,
        Err(f) => return Err(f),
    };
    let c = match resolve(comms, comm, Fault::InvalidComm) {
        Ok(c) => c,
        Err(f) => return Err(f),
    };
    Ok((d, c))
}

/// Resolves a blocking send: its buffer, datatype and communicator.
pub fn MPI_Send(
    comms: &MpiTranslation<MpiComm>,
    datatypes: &MpiTranslation<MpiDatatype>,
    mem: &[u8],
    buf: u32,
    datatype: i32,
    comm: i32,
) -> (r: Result<(MpiDatatype, MpiComm), Fault>)
    requires
        comms.wf(),
        datatypes.wf(),
    ensures
        r is Ok <==> (fits(mem@, buf, 1) && datatypes@.contains_key(datatype)
            && comms@.contains_key(comm)),
        r matches Ok((d, c)) ==> d == datatypes@[datatype] && c == comms@[comm],
        r matches Err(f) ==> explains(
            f,
            fits(mem@, buf, 1),
            comms@.contains_key(comm),
            datatypes@.contains_key(datatype),
            true,
            true,
            true,
        ),
{
    buffer_call(comms, datatypes, mem, buf, datatype, comm)
}

/// Resolves a broadcast: its buffer, datatype and communicator.
pub fn MPI_Bcast(
    comms: &MpiTranslation<MpiComm>,
    datatypes: &MpiTranslation<MpiDatatype>,
    mem: &[u8],
    buffer: u32,
    datatype: i32,
    comm: i32,
) -> (r: Result<(MpiDatatype, MpiComm), Fault>)
    requires
        comms.wf(),
        datatypes.wf(),
    ensures
        r is Ok <==> (fits(mem@, buffer, 1) && datatypes@.contains_key(datatype)
            && comms@.contains_key(comm)),
        r matches Ok((d, c)) ==> d == datatypes@[datatype] && c == comms@[comm],
        r matches Err(f) ==> explains(
            f,
            fits(mem@, buffer, 1),
            comms@.contains_key(comm),
            datatypes@.contains_key(datatype),
            true,
            true,
            true,
        ),
{
    buffer_call(comms, datatypes, mem, buffer, datatype, comm)
}

/// Resolves a blocking receive: its buffer, its status (four bytes),
/// datatype and communicator.
pub fn MPI_Recv(
    comms: &MpiTranslation<MpiComm>,
    datatypes: &MpiTranslation<MpiDatatype>,
    mem: &[u8],
    buf: u32,
    datatype: i32,
    comm: i32,
    status: u32,
) -> (r: Result<(MpiDatatype, MpiComm), Fault>)
    requires
        comms.wf(),
        datatypes.wf(),
    ensures
        r is Ok <==> (fits(mem@, buf, 1) && fits(mem@, status, 4) && datatypes@.contains_key(
            datatype,
        ) && comms@.contains_key(comm)),
        r matches Ok((d, c)) ==> d == datatypes@[datatype] && c == comms@[comm],
        r matches Err(f) ==> explains(
            f,
            fits(mem@, buf, 1) && fits(mem@, status, 4),
            comms@.contains_key(comm),
            datatypes@.contains_key(datatype),
            true,
            true,
            true,
        ),
{
    match pointer(mem, status, 4) {
        Ok(()) => {},
        Err(f) => return Err(f),
    }
    buffer_call(comms, datatypes, mem, buf, datatype, comm)
}

/// Checks the two buffers and resolves the two datatypes and the
/// communicator of a collective that sends and receives.
fn exchange_call(
    comms: &MpiTranslation<MpiComm>,
    datatypes: &MpiTranslation<MpiDatatype>,
    mem: &[u8],
    sendbuf: u32,
    sendtype: i32,
    recvbuf: u32,
    recvbuf_size: u32,
    recvtype: i32,
    comm: i32,
) -> (r: Result<(MpiDatatype, MpiDatatype, MpiComm), Fault>)
    requires
        comms.wf(),
        datatypes.wf(),
    ensures
        r is Ok <==> (fits(mem@, sendbuf, 1) && fits(mem@, recvbuf, recvbuf_size as int)
            && datatypes@.contains_key(sendtype) && datatypes@.contains_key(recvtype)
            && comms@.contains_key(comm)),
        r matches Ok((s, t, c)) ==> s == datatypes@[sendtype] && t == datatypes@[recvtype] && c
            == comms@[comm],
        r matches Err(f) ==> explains(
            f,
            fits(mem@, sendbuf, 1) && fits(mem@, recvbuf, recvbuf_size as int),
            comms@.contains_key(comm),
            datatypes@.contains_key(sendtype) && datatypes@.contains_key(recvtype),
            true,
            true,
            true,
        ),
{
    match pointer(mem, sendbuf, 1) {
        Ok(()) => {},
        Err(f) => return Err(f),
    }
    match pointer(mem, recvbuf, recvbuf_size) {
        Ok(()) => {},
        Err(f) => return Err(f),
    }
    let s = match resolve(datatypes, sendtype, Fault::InvalidDatatype) {
        Ok(s) => s,
        Err(f) => return Err(f),
    };
    let t = match resolve(datatypes, recvtype, Fault::InvalidDatatype) {
        Ok(t) => t,
        Err(f) => return Err(f),
    };
    let c = match resolve(comms, comm, Fault::InvalidComm) {
        Ok(c) => c,
        Err(f) => return Err(f),
    };
    Ok((s, t, c))
}

/// Resolves an all-gather: both buffers, both datatypes and the communicator.
pub fn MPI_Allgather(
    comms: &MpiTranslation<MpiComm>,
    datatypes: &MpiTranslation<MpiDatatype>,
    mem: &[u8],
    sendbuf: u32,
    sendtype: i32,
    recvbuf: u32,
    recvtype: i32,
    comm: i32,
) -> (r: Result<(MpiDatatype, MpiDatatype, MpiComm), Fault>)
    requires
        comms.wf(),
        datatypes.wf(),
    ensures
        r is Ok <==> (fits(mem@, sendbuf, 1) && fits(mem@, recvbuf, 1)
            && datatypes@.contains_key(sendtype) && datatypes@.contains_key(recvtype)
            && comms@.contains_key(comm)),
        r matches Ok((s, t, c)) ==> s == datatypes@[sendtype] && t == datatypes@[recvtype] && c
            == comms@[comm],
        r matches Err(f) ==> explains(
            f,
            fits(mem@, sendbuf, 1) && fits(mem@, recvbuf, 1),
            comms@.contains_key(comm),
            datatypes@.contains_key(sendtype) && datatypes@.contains_key(recvtype),
            true,
            true,
            true,
        ),
{
    exchange_call(comms, datatypes, mem, sendbuf, sendtype, recvbuf, 1, recvtype, comm)
}

/// Resolves an all-to-all: both buffers (the receive buffer holds 32-bit items),
/// both datatypes and the communicator.
pub fn MPI_Alltoall(
    comms: &MpiTranslation<MpiComm>,
    datatypes: &MpiTranslation<MpiDatatype>,
    mem: &[u8],
    sendbuf: u32,
    sendtype: i32,
    recvbuf: u32,
    recvtype: i32,
    comm: i32,
) -> (r: Result<(MpiDatatype, MpiDatatype, MpiComm), Fault>)
    requires
        comms.wf(),
        datatypes.wf(),
    ensures
        r is Ok <==> (fits(mem@, sendbuf, 1) && fits(mem@, recvbuf, 4)
            && datatypes@.contains_key(sendtype) && datatypes@.contains_key(recvtype)
            && comms@.contains_key(comm)),
        r matches Ok((s, t, c)) ==> s == datatypes@[sendtype] && t == datatypes@[recvtype] && c
            == comms@[comm],
        r matches Err(f) ==> explains(
            f,
            fits(mem@, sendbuf, 1) && fits(mem@, recvbuf, 4),
            comms@.contains_key(comm),
            datatypes@.contains_key(sendtype) && datatypes@.contains_key(recvtype),
            true,
            true,
            true,
        ),
{
    exchange_call(comms, datatypes, mem, sendbuf, sendtype, recvbuf, 4, recvtype, comm)
}

/// Resolves a gather: both buffers, both datatypes and the communicator.
pub fn MPI_Gather(
    comms: &MpiTranslation<MpiComm>,
    datatypes: &MpiTranslation<MpiDatatype>,
    mem: &[u8],
    sendbuf: u32,
    sendtype: i32,
    recvbuf: u32,
    recvtype: i32,
    comm: i32,
) -> (r: Result<(MpiDatatype, MpiDatatype, MpiComm), Fault>)
    requires
        comms.wf(),
        datatypes.wf(),
    ensures
        r is Ok <==> (fits(mem@, sendbuf, 1) && fits(mem@, recvbuf, 1)
            && datatypes@.contains_key(sendtype) && datatypes@.contains_key(recvtype)
            && comms@.contains_key(comm)),
        r matches Ok((s, t, c)) ==> s == datatypes@[sendtype] && t == datatypes@[recvtype] && c
            == comms@[comm],
        r matches Err(f) ==> explains(
            f,
            fits(mem@, sendbuf, 1) && fits(mem@, recvbuf, 1),
            comms@.contains_key(comm),
            datatypes@.contains_key(sendtype) && datatypes@.contains_key(recvtype),
            true,
            true,
            true,
        ),
{
    exchange_call(comms, datatypes, mem, sendbuf, sendtype, recvbuf, 1, recvtype, comm)
}

/// Resolves a scatter: both buffers, both datatypes and the communicator.
pub fn MPI_Scatter(
    comms: &MpiTranslation<MpiComm>,
    datatypes: &MpiTranslation<MpiDatatype>,
    mem: &[u8],
    sendbuf: u32,
    sendtype: i32,
    recvbuf: u32,
    recvtype: i32,
    comm: i32,
) -> (r: Result<(MpiDatatype, MpiDatatype, MpiComm), Fault>)
    requires
        comms.wf(),
        datatypes.wf(),
    ensures
        r is Ok <==> (fits(mem@, sendbuf, 1) && fits(mem@, recvbuf, 1)
            && datatypes@.contains_key(sendtype) && datatypes@.contains_key(recvtype)
            && comms@.contains_key(comm)),
        r matches Ok((s, t, c)) ==> s == datatypes@[sendtype] && t == datatypes@[recvtype] && c
            == comms@[comm],
        r matches Err(f) ==> explains(
            f,
            fits(mem@, sendbuf, 1) && fits(mem@, recvbuf, 1),
            comms@.contains_key(comm),
            datatypes@.contains_key(sendtype) && datatypes@.contains_key(recvtype),
            true,
            true,
            true,
        ),
{
    exchange_call(comms, datatypes, mem, sendbuf, sendtype, recvbuf, 1, recvtype, comm)
}

/// Resolves an all-to-all with counts and displacements per rank: both
/// buffers, the four count and displacement arrays (32-bit items), both
/// datatypes and the communicator.
pub fn MPI_Alltoallv(
    comms: &MpiTranslation<MpiComm>,
    datatypes: &MpiTranslation<MpiDatatype>,
    mem: &[u8],
    sendbuf: u32,
    sendcounts: u32,
    sdispls: u32,
    sendtype: i32,
    recvbuf: u32,
    recvcounts: u32,
    rdispls: u32,
    recvtype: i32,
    comm: i32,
) -> (r: Result<(MpiDatatype, MpiDatatype, MpiComm), Fault>)
    requires
        comms.wf(),
        datatypes.wf(),
    ensures
        r is Ok <==> (fits(mem@, sendbuf, 1) && fits(mem@, sendcounts, 4) && fits(mem@, sdispls, 4)
            && fits(mem@, recvbuf, 1) && fits(mem@, recvcounts, 4) && fits(mem@, rdispls, 4)
            && datatypes@.contains_key(sendtype) && datatypes@.contains_key(recvtype)
            && comms@.contains_key(comm)),
        r matches Ok((s, t, c)) ==> s == datatypes@[sendtype] && t == datatypes@[recvtype] && c
            == comms@[comm],
        r matches Err(f) ==> explains(
            f,
            fits(mem@, sendbuf, 1) && fits(mem@, sendcounts, 4) && fits(mem@, sdispls, 4) && fits(
                mem@,
                recvbuf,
                1,
            ) && fits(mem@, recvcounts, 4) && fits(mem@, rdispls, 4),
            comms@.contains_key(comm),
            datatypes@.contains_key(sendtype) && datatypes@.contains_key(recvtype),
            true,
            true,
            true,
        ),
{
    match pointer(mem, sendcounts, 4) {
        Ok(()) => {},
        Err(f) => return Err(f),
    }
    match pointer(mem, sdispls, 4) {
        Ok(()) => {},
        Err(f) => return Err(f),
    }
    match pointer(mem, recvcounts, 4) {
        Ok(()) => {},
        Err(f) => return Err(f),
    }
    match pointer(mem, rdispls, 4) {
        Ok(()) => {},
        Err(f) => return Err(f),
    }
    exchange_call(comms, datatypes, mem, sendbuf, sendtype, recvbuf, 1, recvtype, comm)
}

/// Resolves a send-and-receive: both buffers, the status (one byte checked,
/// as the status layout is the native runtime's), both datatypes and the
/// communicator.
pub fn MPI_Sendrecv(
    comms: &MpiTranslation<MpiComm>,
    datatypes: &MpiTranslation<MpiDatatype>,
    mem: &[u8],
    sendbuf: u32,
    sendtype: i32,
    recvbuf: u32,
    recvtype: i32,
    comm: i32,
    status: u32,
) -> (r: Result<(MpiDatatype, MpiDatatype, MpiComm), Fault>)
    requires
        comms.wf(),
        datatypes.wf(),
    ensures
        r is Ok <==> (fits(mem@, sendbuf, 1) && fits(mem@, recvbuf, 1) && fits(mem@, status, 1)
            && datatypes@.contains_key(sendtype) && datatypes@.contains_key(recvtype)
            && comms@.contains_key(comm)),
        r matches Ok((s, t, c)) ==> s == datatypes@[sendtype] && t == datatypes@[recvtype] && c
            == comms@[comm],
        r matches Err(f) ==> explains(
            f,
            fits(mem@, sendbuf, 1) && fits(mem@, recvbuf, 1) && fits(mem@, status, 1),
            comms@.contains_key(comm),
            datatypes@.contains_key(sendtype) && datatypes@.contains_key(recvtype),
            true,
            true,
            true,
        ),
{
    match pointer(mem, status, 1) {
        Ok(()) => {},
        Err(f) => return Err(f),
    }
    exchange_call(comms, datatypes, mem, sendbuf, sendtype, recvbuf, 1, recvtype, comm)
}

/// Checks both buffers and resolves the datatype, the operator and the
/// communicator of a reduction.
fn reduce_call(
    comms: &MpiTranslation<MpiComm>,
    datatypes: &MpiTranslation<MpiDatatype>,
    ops: &MpiTranslation<MpiOp>,
    mem: &[u8],
    sendbuf: u32,
    recvbuf: u32,
    datatype: i32,
    op: i32,
    comm: i32,
) -> (r: Result<(MpiDatatype, MpiOp, MpiComm), Fault>)
    requires
        comms.wf(),
        datatypes.wf(),
        ops.wf(),
    ensures
        r is Ok <==> (fits(mem@, sendbuf, 1) && fits(mem@, recvbuf, 1) && datatypes@.contains_key(
            datatype,
        ) && ops@.contains_key(op) && comms@.contains_key(comm)),
        r matches Ok((d, o, c)) ==> d == datatypes@[datatype] && o == ops@[op] && c == comms@[comm],
        r matches Err(f) ==> explains(
            f,
            fits(mem@, sendbuf, 1) && fits(mem@, recvbuf, 1),
            comms@.contains_key(comm),
            datatypes@.contains_key(datatype),
            true,
            ops@.contains_key(op),
            true,
        ),
{
    match pointer(mem, sendbuf, 1) {
        Ok(()) => {},
        Err(f) => return Err(f),
    }
    match pointer(mem, recvbuf, 1) {
        Ok(()) => {},
        Err(f) => return Err(f),
    }
    let d = match resolve(datatypes, datatype, Fault::InvalidDatatype) {
        Ok(d) => d,
        Err(f) => return Err(f),
    };
    let o = match resolve(ops, op, Fault::InvalidOp) {
        Ok(o) => o,
        Err(f) => return Err(f),
    };
    let c = match resolve(comms, comm, Fault::InvalidComm) {
        Ok(c) => c,
        Err(f) => return Err(f),
    };
    Ok((d, o, c))
}

/// Resolves an all-reduce: both buffers, the datatype, the operator and the
/// communicator.
pub fn MPI_Allreduce(
    comms: &MpiTranslation<MpiComm>,
    datatypes: &MpiTranslation<MpiDatatype>,
    ops: &MpiTranslation<MpiOp>,
    mem: &[u8],
    sendbuf: u32,
    recvbuf: u32,
    datatype: i32,
    op: i32,
    comm: i32,
) -> (r: Result<(MpiDatatype, MpiOp, MpiComm), Fault>)
    requires
        comms.wf(),
        datatypes.wf(),
        ops.wf(),
    ensures
        r is Ok <==> (fits(mem@, sendbuf, 1) && fits(mem@, recvbuf, 1) && datatypes@.contains_key(
            datatype,
        ) && ops@.contains_key(op) && comms@.contains_key(comm)),
        r matches Ok((d, o, c)) ==> d == datatypes@[datatype] && o == ops@[op] && c == comms@[comm],
        r matches Err(f) ==> explains(
            f,
            fits(mem@, sendbuf, 1) && fits(mem@, recvbuf, 1),
            comms@.contains_key(comm),
            datatypes@.contains_key(datatype),
            true,
            ops@.contains_key(op),
            true,
        ),
{
    reduce_call(comms, datatypes, ops, mem, sendbuf, recvbuf, datatype, op, comm)
}

/// Resolves a reduction to one root: both buffers, the datatype, the operator
/// and the communicator.
pub fn MPI_Reduce(
    comms: &MpiTranslation<MpiComm>,
    datatypes: &MpiTranslation<MpiDatatype>,
    ops: &MpiTranslation<MpiOp>,
    mem: &[u8],
    sendbuf: u32,
    recvbuf: u32,
    datatype: i32,
    op: i32,
    comm: i32,
) -> (r: Result<(MpiDatatype, MpiOp, MpiComm), Fault>)
    requires
        comms.wf(),
        datatypes.wf(),
        ops.wf(),
    ensures
        r is Ok <==> (fits(mem@, sendbuf, 1) && fits(mem@, recvbuf, 1) && datatypes@.contains_key(
            datatype,
        ) && ops@.contains_key(op) && comms@.contains_key(comm)),
        r matches Ok((d, o, c)) ==> d == datatypes@[datatype] && o == ops@[op] && c == comms@[comm],
        r matches Err(f) ==> explains(
            f,
            fits(mem@, sendbuf, 1) && fits(mem@, recvbuf, 1),
            comms@.contains_key(comm),
            datatypes@.contains_key(datatype),
            true,
            ops@.contains_key(op),
            true,
        ),
{
    reduce_call(comms, datatypes, ops, mem, sendbuf, recvbuf, datatype, op, comm)
}

/// Resolves the communicator whose rank is asked for, and checks the
/// four bytes that receive it.
pub fn MPI_Comm_rank(comms: &MpiTranslation<MpiComm>, mem: &[u8], comm: i32, rank: u32) -> (r: Result<
    MpiComm,
    Fault,
>)
    requires
        comms.wf(),
    ensures
        r is Ok <==> (comms@.contains_key(comm) && fits(mem@, rank, 4)),
        r matches Ok(c) ==> c == comms@[comm],
        r matches Err(f) ==> explains(
            f,
            fits(mem@, rank, 4),
            comms@.contains_key(comm),
            true,
            true,
            true,
            true,
        ),
{
    let c = match resolve(comms, comm, Fault::InvalidComm) {
        Ok(c) => c,
        Err(f) => return Err(f),
    };
    match pointer(mem, rank, 4) {
        Ok(()) => {},
        Err(f) => return Err(f),
    }
    Ok(c)
}

/// Resolves the communicator whose size is asked for, and checks the
/// four bytes that receive it.
pub fn MPI_Comm_size(comms: &MpiTranslation<MpiComm>, mem: &[u8], comm: i32, size: u32) -> (r: Result<
    MpiComm,
    Fault,
>)
    requires
        comms.wf(),
    ensures
        r is Ok <==> (comms@.contains_key(comm) && fits(mem@, size, 4)),
        r matches Ok(c) ==> c == comms@[comm],
        r matches Err(f) ==> explains(
            f,
            fits(mem@, size, 4),
            comms@.contains_key(comm),
            true,
            true,
            true,
            true,
        ),
{
    let c = match resolve(comms, comm, Fault::InvalidComm) {
        Ok(c) => c,
        Err(f) => return Err(f),
    };
    match pointer(mem, size, 4) {
        Ok(()) => {},
        Err(f) => return Err(f),
    }
    Ok(c)
}

/// Resolves the datatype of a received-count query, and checks the status
/// (one byte, its layout being the native runtime's) and the four bytes that
/// receive the count.
pub fn MPI_Get_count(
    datatypes: &MpiTranslation<MpiDatatype>,
    mem: &[u8],
    status: u32,
    datatype: i32,
    count: u32,
) -> (r: Result<MpiDatatype, Fault>)
    requires
        datatypes.wf(),
    ensures
        r is Ok <==> (fits(mem@, status, 1) && fits(mem@, count, 4) && datatypes@.contains_key(
            datatype,
        )),
        r matches Ok(d) ==> d == datatypes@[datatype],
        r matches Err(f) ==> explains(
            f,
            fits(mem@, status, 1) && fits(mem@, count, 4),
            true,
            datatypes@.contains_key(datatype),
            true,
            true,
            true,
        ),
{
    match pointer(mem, status, 1) {
        Ok(()) => {},
        Err(f) => return Err(f),
    }
    match pointer(mem, count, 4) {
        Ok(()) => {},
        Err(f) => return Err(f),
    }
    resolve(datatypes, datatype, Fault::InvalidDatatype)
}

/// Resolves the datatype whose size is asked for, and checks the four bytes
/// that receive it.
pub fn MPI_Type_size(datatypes: &MpiTranslation<MpiDatatype>, mem: &[u8], datatype: i32, size: u32) -> (r: Result<
    MpiDatatype,
    Fault,
>)
    requires
        datatypes.wf(),
    ensures
        r is Ok <==> (fits(mem@, size, 4) && datatypes@.contains_key(datatype)),
        r matches Ok(d) ==> d == datatypes@[datatype],
        r matches Err(f) ==> explains(
            f,
            fits(mem@, size, 4),
            true,
            datatypes@.contains_key(datatype),
            true,
            true,
            true,
        ),
{
    match pointer(mem, size, 4) {
        Ok(()) => {},
        Err(f) => return Err(f),
    }
    resolve(datatypes, datatype, Fault::InvalidDatatype)
}

/// Resolves both groups of a rank translation, and checks the first item
/// of both rank arrays.
pub fn MPI_Group_translate_ranks(
    groups: &MpiTranslation<MpiGroup>,
    mem: &[u8],
    group1: i32,
    ranks1: u32,
    group2: i32,
    ranks2: u32,
) -> (r: Result<(MpiGroup, MpiGroup), Fault>)
    requires
        groups.wf(),
    ensures
        r is Ok <==> (fits(mem@, ranks1, 4) && fits(mem@, ranks2, 4) && groups@.contains_key(group1)
            && groups@.contains_key(group2)),
        r matches Ok((g1, g2)) ==> g1 == groups@[group1] && g2 == groups@[group2],
        r matches Err(f) ==> explains(
            f,
            fits(mem@, ranks1, 4) && fits(mem@, ranks2, 4),
            true,
            true,
            groups@.contains_key(group1) && groups@.contains_key(group2),
            true,
            true,
        ),
{
    match pointer(mem, ranks1, 4) {
        Ok(()) => {},
        Err(f) => return Err(f),
    }
    match pointer(mem, ranks2, 4) {
        Ok(()) => {},
        Err(f) => return Err(f),
    }
    let g1 = match resolve(groups, group1, Fault::InvalidGroup) {
        Ok(g) => g,
        Err(f) => return Err(f),
    };
    let g2 = match resolve(groups, group2, Fault::InvalidGroup) {
        Ok(g) => g,
        Err(f) => return Err(f),
    };
    Ok((g1, g2))
}

/// Checks the four bytes that receive whether the runtime is initialised.
pub fn MPI_Initialized(mem: &[u8], flag: u32) -> (r: Result<(), Fault>)
    ensures
        r is Ok <==> fits(mem@, flag, 4),
        r matches Err(f) ==> f == Fault::OutOfBounds,
{
    pointer(mem, flag, 4)
}

/// Allocates an id in `t` and writes it at `at`, which must be in bounds.
fn allocate_into<H: Default>(t: &mut MpiTranslation<H>, mem: &mut [u8], at: u32) -> (r: Result<i32, Fault>)
    requires
        old(t).wf(),
        fits(old(mem)@, at, 4),
    ensures
        final(t).wf(),
        match r {
            Ok(id) => {
                &&& old(t).spec_next_id() < i32::MAX
                &&& allocated(*old(t), *final(t), id)
                &&& final(mem)@ == with_u32_at(old(mem)@, at as int, id as u32)
                &&& u32_at(final(mem)@, at as int) as i32 == id
            },
            Err(f) => {
                &&& f == Fault::Exhausted
                &&& old(t).spec_next_id() == i32::MAX
                &&& same_table(*old(t), *final(t))
                &&& final(mem)@ == old(mem)@
            },
        },
{
    if t.next_id() == i32::MAX {
        return Err(Fault::Exhausted);
    }
    let (id, _) = t.alloc_instance();
    write_i32(mem, at, id);
    Ok(id)
}

/// Resolves the communicator and group of a communicator creation, then
/// allocates the new communicator's id and writes it at `newcomm`. The
/// native call's result is to be stored under that id.
pub fn MPI_Comm_create(
    comms: &mut MpiTranslation<MpiComm>,
    groups: &MpiTranslation<MpiGroup>,
    mem: &mut [u8],
    comm: i32,
    group: i32,
    newcomm: u32,
) -> (r: Result<(MpiComm, MpiGroup, i32), Fault>)
    requires
        old(comms).wf(),
        groups.wf(),
    ensures
        final(comms).wf(),
        r is Ok <==> (fits(old(mem)@, newcomm, 4) && old(comms)@.contains_key(comm)
            && groups@.contains_key(group) && old(comms).spec_next_id() < i32::MAX),
        match r {
            Ok((c, g, id)) => {
                &&& c == old(comms)@[comm]
                &&& g == groups@[group]
                &&& allocated(*old(comms), *final(comms), id)
                &&& final(mem)@ == with_u32_at(old(mem)@, newcomm as int, id as u32)
            },
            Err(f) => {
                &&& explains(
                    f,
                    fits(old(mem)@, newcomm, 4),
                    old(comms)@.contains_key(comm),
                    true,
                    groups@.contains_key(group),
                    true,
                    true,
                ) || (f == Fault::Exhausted && old(comms).spec_next_id() == i32::MAX)
                &&& same_table(*old(comms), *final(comms))
                &&& final(mem)@ == old(mem)@
            },
        },
{
    match pointer(mem, newcomm, 4) {
        Ok(()) => {},
        Err(f) => return Err(f),
    }
    let c = match resolve(comms, comm, Fault::InvalidComm) {
        Ok(c) => c,
        Err(f) => return Err(f),
    };
    let g = match resolve(groups, group, Fault::InvalidGroup) {
        Ok(g) => g,
        Err(f) => return Err(f),
    };
    match allocate_into(comms, mem, newcomm) {
        Ok(id) => Ok((c, g, id)),
        Err(f) => Err(f),
    }
}

/// Resolves the communicator whose group is asked for, then allocates the
/// group's id and writes it at `group`. The native call's result is to be
/// stored under that id.
pub fn MPI_Comm_group(
    comms: &MpiTranslation<MpiComm>,
    groups: &mut MpiTranslation<MpiGroup>,
    mem: &mut [u8],
    comm: i32,
    group: u32,
) -> (r: Result<(MpiComm, i32), Fault>)
    requires
        comms.wf(),
        old(groups).wf(),
    ensures
        final(groups).wf(),
        r is Ok <==> (fits(old(mem)@, group, 4) && comms@.contains_key(comm)
            && old(groups).spec_next_id() < i32::MAX),
        match r {
            Ok((c, id)) => {
                &&& c == comms@[comm]
                &&& allocated(*old(groups), *final(groups), id)
                &&& final(mem)@ == with_u32_at(old(mem)@, group as int, id as u32)
            },
            Err(f) => {
                &&& explains(
                    f,
                    fits(old(mem)@, group, 4),
                    comms@.contains_key(comm),
                    true,
                    true,
                    true,
                    true,
                ) || (f == Fault::Exhausted && old(groups).spec_next_id() == i32::MAX)
                &&& same_table(*old(groups), *final(groups))
                &&& final(mem)@ == old(mem)@
            },
        },
{
    match pointer(mem, group, 4) {
        Ok(()) => {},
        Err(f) => return Err(f),
    }
    let c = match resolve(comms, comm, Fault::InvalidComm) {
        Ok(c) => c,
        Err(f) => return Err(f),
    };
    match allocate_into(groups, mem, group) {
        Ok(id) => Ok((c, id)),
        Err(f) => Err(f),
    }
}

/// Resolves the group of a range inclusion and checks its `n` ranges of
/// three 32-bit items each, then allocates the new group's id and writes it
/// at `newgroup`. The native call's result is to be stored under that id.
pub fn MPI_Group_range_incl(
    groups: &mut MpiTranslation<MpiGroup>,
    mem: &mut [u8],
    group: i32,
    n: i32,
    ranges: u32,
    newgroup: u32,
) -> (r: Result<(MpiGroup, i32), Fault>)
    requires
        old(groups).wf(),
    ensures
        final(groups).wf(),
        r is Ok <==> (in_bounds(old(mem)@.len() as int, ranges, 4, 3 * n) && fits(
            old(mem)@,
            newgroup,
            4,
        ) && old(groups)@.contains_key(group) && old(groups).spec_next_id() < i32::MAX),
        match r {
            Ok((g, id)) => {
                &&& g == old(groups)@[group]
                &&& allocated(*old(groups), *final(groups), id)
                &&& final(mem)@ == with_u32_at(old(mem)@, newgroup as int, id as u32)
            },
            Err(f) => {
                &&& explains(
                    f,
                    in_bounds(old(mem)@.len() as int, ranges, 4, 3 * n) && fits(
                        old(mem)@,
                        newgroup,
                        4,
                    ),
                    true,
                    true,
                    old(groups)@.contains_key(group),
                    true,
                    true,
                ) || (f == Fault::Exhausted && old(groups).spec_next_id() == i32::MAX)
                &&& same_table(*old(groups), *final(groups))
                &&& final(mem)@ == old(mem)@
            },
        },
{
    if !check_signed(mem, ranges, 4, 3 * (n as i64)) {
        return Err(Fault::OutOfBounds);
    }
    match pointer(mem, newgroup, 4) {
        Ok(()) => {},
        Err(f) => return Err(f),
    }
    let g = match resolve(groups, group, Fault::InvalidGroup) {
        Ok(g) => g,
        Err(f) => return Err(f),
    };
    match allocate_into(groups, mem, newgroup) {
        Ok(id) => Ok((g, id)),
        Err(f) => Err(f),
    }
}

/// Resolves the buffer, datatype and communicator of a non-blocking send or
/// receive, then allocates the request's id and writes it at `request`.
fn request_call(
    comms: &MpiTranslation<MpiComm>,
    datatypes: &MpiTranslation<MpiDatatype>,
    requests: &mut MpiTranslation<MpiRequest>,
    mem: &mut [u8],
    buf: u32,
    datatype: i32,
    comm: i32,
    request: u32,
) -> (r: Result<(MpiDatatype, MpiComm, i32), Fault>)
    requires
        comms.wf(),
        datatypes.wf(),
        old(requests).wf(),
    ensures
        final(requests).wf(),
        r is Ok <==> (fits(old(mem)@, buf, 1) && fits(old(mem)@, request, 4)
            && datatypes@.contains_key(datatype) && comms@.contains_key(comm)
            && old(requests).spec_next_id() < i32::MAX),
        match r {
            Ok((d, c, id)) => {
                &&& d == datatypes@[datatype]
                &&& c == comms@[comm]
                &&& allocated(*old(requests), *final(requests), id)
                &&& final(mem)@ == with_u32_at(old(mem)@, request as int, id as u32)
            },
            Err(f) => {
                &&& explains(
                    f,
                    fits(old(mem)@, buf, 1) && fits(old(mem)@, request, 4),
                    comms@.contains_key(comm),
                    datatypes@.contains_key(datatype),
                    true,
                    true,
                    true,
                ) || (f == Fault::Exhausted && old(requests).spec_next_id() == i32::MAX)
                &&& same_table(*old(requests), *final(requests))
                &&& final(mem)@ == old(mem)@
            },
        },
{
    match pointer(mem, request, 4) {
        Ok(()) => {},
        Err(f) => return Err(f),
    }
    let (d, c) = match buffer_call(comms, datatypes, mem, buf, datatype, comm) {
        Ok(dc) => dc,
        Err(f) => return Err(f),
    };
    match allocate_into(requests, mem, request) {
        Ok(id) => Ok((d, c, id)),
        Err(f) => Err(f),
    }
}

/// Resolves a non-blocking receive: its buffer, datatype and communicator;
/// then allocates the request's id and writes it at `request`. The native
/// request is to be stored under that id.
pub fn MPI_Irecv(
    comms: &MpiTranslation<MpiComm>,
    datatypes: &MpiTranslation<MpiDatatype>,
    requests: &mut MpiTranslation<MpiRequest>,
    mem: &mut [u8],
    buf: u32,
    datatype: i32,
    comm: i32,
    request: u32,
) -> (r: Result<(MpiDatatype, MpiComm, i32), Fault>)
    requires
        comms.wf(),
        datatypes.wf(),
        old(requests).wf(),
    ensures
        final(requests).wf(),
        r is Ok <==> (fits(old(mem)@, buf, 1) && fits(old(mem)@, request, 4)
            && datatypes@.contains_key(datatype) && comms@.contains_key(comm)
            && old(requests).spec_next_id() < i32::MAX),
        match r {
            Ok((d, c, id)) => {
                &&& d == datatypes@[datatype]
                &&& c == comms@[comm]
                &&& allocated(*old(requests), *final(requests), id)
                &&& final(mem)@ == with_u32_at(old(mem)@, request as int, id as u32)
            },
            Err(f) => {
                &&& explains(
                    f,
                    fits(old(mem)@, buf, 1) && fits(old(mem)@, request, 4),
                    comms@.contains_key(comm),
                    datatypes@.contains_key(datatype),
                    true,
                    true,
                    true,
                ) || (f == Fault::Exhausted && old(requests).spec_next_id() == i32::MAX)
                &&& same_table(*old(requests), *final(requests))
                &&& final(mem)@ == old(mem)@
            },
        },
{
    request_call(comms, datatypes, requests, mem, buf, datatype, comm, request)
}

/// Resolves a non-blocking send: its buffer, datatype and communicator;
/// then allocates the request's id and writes it at `request`. The native
/// request is to be stored under that id.
pub fn MPI_Isend(
    comms: &MpiTranslation<MpiComm>,
    datatypes: &MpiTranslation<MpiDatatype>,
    requests: &mut MpiTranslation<MpiRequest>,
    mem: &mut [u8],
    buf: u32,
    datatype: i32,
    comm: i32,
    request: u32,
) -> (r: Result<(MpiDatatype, MpiComm, i32), Fault>)
    requires
        comms.wf(),
        datatypes.wf(),
        old(requests).wf(),
    ensures
        final(requests).wf(),
        r is Ok <==> (fits(old(mem)@, buf, 1) && fits(old(mem)@, request, 4)
            && datatypes@.contains_key(datatype) && comms@.contains_key(comm)
            && old(requests).spec_next_id() < i32::MAX),
        match r {
            Ok((d, c, id)) => {
                &&& d == datatypes@[datatype]
                &&& c == comms@[comm]
                &&& allocated(*old(requests), *final(requests), id)
                &&& final(mem)@ == with_u32_at(old(mem)@, request as int, id as u32)
            },
            Err(f) => {
                &&& explains(
                    f,
                    fits(old(mem)@, buf, 1) && fits(old(mem)@, request, 4),
                    comms@.contains_key(comm),
                    datatypes@.contains_key(datatype),
                    true,
                    true,
                    true,
                ) || (f == Fault::Exhausted && old(requests).spec_next_id() == i32::MAX)
                &&& same_table(*old(requests), *final(requests))
                &&& final(mem)@ == old(mem)@
            },
        },
{
    request_call(comms, datatypes, requests, mem, buf, datatype, comm, request)
}

/// Resolves the communicator of a split and allocates the id that the new
/// communicator will get. The id is written to sandbox memory only once the
/// native split is done, by `finish_comm_split`.
pub fn MPI_Comm_split(
    comms: &mut MpiTranslation<MpiComm>,
    mem: &[u8],
    comm: i32,
    newcomm: u32,
) -> (r: Result<(MpiComm, i32), Fault>)
    requires
        old(comms).wf(),
    ensures
        final(comms).wf(),
        r is Ok <==> (fits(mem@, newcomm, 4) && old(comms)@.contains_key(comm)
            && old(comms).spec_next_id() < i32::MAX),
        match r {
            Ok((c, id)) => {
                &&& c == old(comms)@[comm]
                &&& allocated(*old(comms), *final(comms), id)
            },
            Err(f) => {
                &&& explains(
                    f,
                    fits(mem@, newcomm, 4),
                    old(comms)@.contains_key(comm),
                    true,
                    true,
                    true,
                    true,
                ) || (f == Fault::Exhausted && old(comms).spec_next_id() == i32::MAX)
                &&& same_table(*old(comms), *final(comms))
            },
        },
{
    match pointer(mem, newcomm, 4) {
        Ok(()) => {},
        Err(f) => return Err(f),
    }
    let c = match resolve(comms, comm, Fault::InvalidComm) {
        Ok(c) => c,
        Err(f) => return Err(f),
    };
    if comms.next_id() == i32::MAX {
        return Err(Fault::Exhausted);
    }
    let (id, _) = comms.alloc_instance();
    Ok((c, id))
}

/// Completes a split with the native communicator `result` that it gave.
///
/// A participant that asked for no group gets the native null communicator:
/// then the id allocated for the split is freed again, so that no entry
/// stands for the null communicator, and sandboxed code gets the well-known
/// null id. Otherwise `result` is stored under the allocated id and that id
/// is handed out. The id handed out is written at `newcomm`.
pub fn finish_comm_split(
    comms: &mut MpiTranslation<MpiComm>,
    mem: &mut [u8],
    newcomm: u32,
    newcomm_id: i32,
    result: MpiComm,
    null: MpiComm,
) -> (r: Result<i32, Fault>)
    requires
        old(comms).wf(),
        old(comms)@.contains_key(newcomm_id),
    ensures
        final(comms).wf(),
        final(comms).spec_next_id() == old(comms).spec_next_id(),
        result == null ==> final(comms)@ == old(comms)@.remove(newcomm_id),
        result != null ==> final(comms)@ == old(comms)@.insert(newcomm_id, result),
        r is Ok <==> fits(old(mem)@, newcomm, 4),
        match r {
            Ok(id) => {
                &&& id == (if result == null {
                    MPI_COMM_NULL
                } else {
                    newcomm_id
                })
                &&& final(mem)@ == with_u32_at(old(mem)@, newcomm as int, id as u32)
                &&& u32_at(final(mem)@, newcomm as int) as i32 == id
            },
            Err(f) => f == Fault::OutOfBounds && final(mem)@ == old(mem)@,
        },
{
    match comms.get_mut(newcomm_id) {
        Some(entry) => {
            *entry = result;
        },
        None => {},
    }
    let id = if result == null {
        comms.free_instance(newcomm_id);
        proof {
            assert(old(comms)@.insert(newcomm_id, result).remove(newcomm_id) =~= old(comms)@.remove(newcomm_id));
        }
        MPI_COMM_NULL
    } else {
        newcomm_id
    };
    if write_i32(mem, newcomm, id) {
        Ok(id)
    } else {
        Err(Fault::OutOfBounds)
    }
}

/// A split whose native result is the null communicator leaves the
/// communicator table with exactly the entries it had before the split.
pub proof fn lemma_split_to_null_restores(
    t0: MpiTranslation<MpiComm>,
    t1: MpiTranslation<MpiComm>,
    t2: MpiTranslation<MpiComm>,
    id: i32,
)
    requires
        allocated(t0, t1, id),
        t2@ == t1@.remove(id),
    ensures
        t2@ == t0@,
{
    assert(t2@ =~= t0@);
}

/// Reads the id at `at` and resolves it in `t`; on success the entry is
/// taken out of the table and its resource handed back.
fn take<H: Copy>(t: &mut MpiTranslation<H>, mem: &[u8], at: u32, fault: Fault) -> (r: Result<(i32, H), Fault>)
    requires
        old(t).wf(),
    ensures
        final(t).wf(),
        final(t).spec_next_id() == old(t).spec_next_id(),
        r is Ok <==> (fits(mem@, at, 4) && old(t)@.contains_key(u32_at(mem@, at as int) as i32)),
        match r {
            Ok((id, v)) => {
                &&& id == u32_at(mem@, at as int) as i32
                &&& v == old(t)@[id]
                &&& final(t)@ == old(t)@.remove(id)
            },
            Err(f) => {
                &&& (f == Fault::OutOfBounds && !fits(mem@, at, 4)) || (f == fault && fits(mem@, at, 4))
                &&& final(t)@ == old(t)@
            },
        },
{
    let id = match read_i32(mem, at) {
        Some(id) => id,
        None => return Err(Fault::OutOfBounds),
    };
    let v = match resolve(t, id, fault) {
        Ok(v) => v,
        Err(f) => return Err(f),
    };
    t.free_instance(id);
    Ok((id, v))
}

/// Reads the id of the communicator to free from `comm`, resolves it and
/// takes it out of the table; the native communicator is handed back to be
/// freed.
pub fn MPI_Comm_free(comms: &mut MpiTranslation<MpiComm>, mem: &[u8], comm: u32) -> (r: Result<
    (i32, MpiComm),
    Fault,
>)
    requires
        old(comms).wf(),
    ensures
        final(comms).wf(),
        final(comms).spec_next_id() == old(comms).spec_next_id(),
        r is Ok <==> (fits(mem@, comm, 4) && old(comms)@.contains_key(u32_at(mem@, comm as int) as i32)),
        match r {
            Ok((id, c)) => {
                &&& id == u32_at(mem@, comm as int) as i32
                &&& c == old(comms)@[id]
                &&& final(comms)@ == old(comms)@.remove(id)
            },
            Err(f) => {
                &&& (f == Fault::OutOfBounds && !fits(mem@, comm, 4)) || (f == Fault::InvalidComm
                    && fits(mem@, comm, 4))
                &&& final(comms)@ == old(comms)@
            },
        },
{
    take(comms, mem, comm, Fault::InvalidComm)
}

/// Reads the id of the group to free from `group`, resolves it and takes it
/// out of the table; the native group is handed back to be freed.
pub fn MPI_Group_free(groups: &mut MpiTranslation<MpiGroup>, mem: &[u8], group: u32) -> (r: Result<
    (i32, MpiGroup),
    Fault,
>)
    requires
        old(groups).wf(),
    ensures
        final(groups).wf(),
        final(groups).spec_next_id() == old(groups).spec_next_id(),
        r is Ok <==> (fits(mem@, group, 4) && old(groups)@.contains_key(u32_at(mem@, group as int) as i32)),
        match r {
            Ok((id, g)) => {
                &&& id == u32_at(mem@, group as int) as i32
                &&& g == old(groups)@[id]
                &&& final(groups)@ == old(groups)@.remove(id)
            },
            Err(f) => {
                &&& (f == Fault::OutOfBounds && !fits(mem@, group, 4)) || (f == Fault::InvalidGroup
                    && fits(mem@, group, 4))
                &&& final(groups)@ == old(groups)@
            },
        },
{
    take(groups, mem, group, Fault::InvalidGroup)
}

/// Checks the status (eight bytes), reads the id of the request to wait for
/// from `request`, resolves it and takes it out of the table; the native
/// request is handed back to be waited for.
pub fn MPI_Wait(
    requests: &mut MpiTranslation<MpiRequest>,
    mem: &[u8],
    request: u32,
    status: u32,
) -> (r: Result<(i32, MpiRequest), Fault>)
    requires
        old(requests).wf(),
    ensures
        final(requests).wf(),
        final(requests).spec_next_id() == old(requests).spec_next_id(),
        r is Ok <==> (fits(mem@, request, 4) && fits(mem@, status, 8) && old(requests)@.contains_key(
            u32_at(mem@, request as int) as i32,
        )),
        match r {
            Ok((id, q)) => {
                &&& id == u32_at(mem@, request as int) as i32
                &&& q == old(requests)@[id]
                &&& final(requests)@ == old(requests)@.remove(id)
            },
            Err(f) => {
                &&& (f == Fault::OutOfBounds && !(fits(mem@, request, 4) && fits(mem@, status, 8)))
                    || (f == Fault::InvalidRequest && fits(mem@, request, 4))
                &&& final(requests)@ == old(requests)@
            },
        },
{
    match pointer(mem, status, 8) {
        Ok(()) => {},
        Err(f) => return Err(f),
    }
    take(requests, mem, request, Fault::InvalidRequest)
}

/// Resolves both communicators of a comparison and checks the four bytes
/// that receive its outcome.
pub fn MPI_Comm_compare(
    comms: &MpiTranslation<MpiComm>,
    mem: &[u8],
    comm1: i32,
    comm2: i32,
    result: u32,
) -> (r: Result<(MpiComm, MpiComm), Fault>)
    requires
        comms.wf(),
    ensures
        r is Ok <==> (fits(mem@, result, 4) && comms@.contains_key(comm1) && comms@.contains_key(
            comm2,
        )),
        r matches Ok((c1, c2)) ==> c1 == comms@[comm1] && c2 == comms@[comm2],
        r matches Err(f) ==> explains(
            f,
            fits(mem@, result, 4),
            comms@.contains_key(comm1) && comms@.contains_key(comm2),
            true,
            true,
            true,
            true,
        ),
{
    match pointer(mem, result, 4) {
        Ok(()) => {},
        Err(f) => return Err(f),
    }
    let c1 = match resolve(comms, comm1, Fault::InvalidComm) {
        Ok(c) => c,
        Err(f) => return Err(f),
    };
    let c2 = match resolve(comms, comm2, Fault::InvalidComm) {
        Ok(c) => c,
        Err(f) => return Err(f),
    };
    Ok((c1, c2))
}

/// The outcome that the native comparison code `native` stands for, given
/// the native runtime's codes for the four outcomes; `None` for a code that
/// is none of them.
pub fn comparison_from_native(native: i32, ident: i32, congruent: i32, similar: i32, unequal: i32) -> (r:
    Option<MpiComparisonResult>)
    ensures
        r == (if native == ident {
            Some(MpiComparisonResult::MPI_IDENT)
        } else if native == congruent {
            Some(MpiComparisonResult::MPI_CONGRUENT)
        } else if native == similar {
            Some(MpiComparisonResult::MPI_SIMILAR)
        } else if native == unequal {
            Some(MpiComparisonResult::MPI_UNEQUAL)
        } else {
            None
        }),
{
    if native == ident {
        Some(MpiComparisonResult::MPI_IDENT)
    } else if native == congruent {
        Some(MpiComparisonResult::MPI_CONGRUENT)
    } else if native == similar {
        Some(MpiComparisonResult::MPI_SIMILAR)
    } else if native == unequal {
        Some(MpiComparisonResult::MPI_UNEQUAL)
    } else {
        None
    }
}

/// Writes the code of a comparison's outcome at `result`.
pub fn finish_comm_compare(mem: &mut [u8], result: u32, outcome: MpiComparisonResult) -> (r: Result<
    i32,
    Fault,
>)
    ensures
        r is Ok <==> fits(old(mem)@, result, 4),
        match r {
            Ok(status) => {
                &&& status == MPI_SUCCESS
                &&& final(mem)@ == with_u32_at(old(mem)@, result as int, outcome.spec_code() as u32)
                &&& u32_at(final(mem)@, result as int) as i32 == outcome.spec_code()
            },
            Err(f) => f == Fault::OutOfBounds && final(mem)@ == old(mem)@,
        },
{
    if write_i32(mem, result, outcome.code()) {
        Ok(MPI_SUCCESS)
    } else {
        Err(Fault::OutOfBounds)
    }
}

/// Writes the address of memory that the sandbox's own allocator handed out,
/// `alloced`, at `baseptr`.
pub fn MPI_Alloc_mem(mem: &mut [u8], baseptr: u32, alloced: u32) -> (r: Result<i32, Fault>)
    ensures
        r is Ok <==> fits(old(mem)@, baseptr, 4),
        match r {
            Ok(status) => {
                &&& status == MPI_SUCCESS
                &&& final(mem)@ == with_u32_at(old(mem)@, baseptr as int, alloced)
            },
            Err(f) => f == Fault::OutOfBounds && final(mem)@ == old(mem)@,
        },
{
    let v = alloced as i32;
    proof {
        assert(v as u32 == alloced) by (bit_vector)
            requires
                v == alloced as i32,
        ;
    }
    if write_i32(mem, baseptr, v) {
        Ok(MPI_SUCCESS)
    } else {
        Err(Fault::OutOfBounds)
    }
}

/// Copies the host name `hostname` into the buffer of `len` bytes at `name`.
/// No terminating zero is written.
pub fn write_hostname(mem: &mut [u8], name: u32, len: i32, hostname: &[u8]) -> (r: Result<i32, Fault>)
    ensures
        r is Ok <==> (in_bounds(old(mem)@.len() as int, name, 1, len as int) && hostname@.len() <= len),
        match r {
            Ok(status) => {
                &&& status == 0
                &&& final(mem)@ == old(mem)@.subrange(0, name as int) + hostname@ + old(mem)@.subrange(
                    name + hostname@.len(),
                    old(mem)@.len() as int,
                )
            },
            Err(f) => {
                &&& final(mem)@ == old(mem)@
                &&& (f == Fault::OutOfBounds <==> !in_bounds(old(mem)@.len() as int, name, 1, len as int))
                &&& (f == Fault::BufferTooSmall <==> (in_bounds(old(mem)@.len() as int, name, 1, len as int)
                    && hostname@.len() > len))
            },
        },
{
    if !check_signed(mem, name, 1, len as i64) {
        return Err(Fault::OutOfBounds);
    }
    if hostname.len() > len as usize {
        return Err(Fault::BufferTooSmall);
    }
    if write_bytes(mem, name, hostname) {
        Ok(0)
    } else {
        Err(Fault::OutOfBounds)
    }
}

/// Writes this machine's host name into the buffer of `len` bytes at `name`.
pub fn gethostname(mem: &mut [u8], name: u32, len: i32) -> (r: Result<i32, Fault>)
    ensures
        (r == Err::<i32, Fault>(Fault::OutOfBounds)) <==> !in_bounds(
            old(mem)@.len() as int,
            name,
            1,
            len as int,
        ),
        match r {
            Ok(status) => {
                &&& status == 0
                &&& exists|h: Seq<u8>|
                    h.len() <= len && #[trigger] old(mem)@.subrange(0, name as int) + h + old(mem)@.subrange(
                        name + h.len(),
                        old(mem)@.len() as int,
                    ) == final(mem)@
            },
            Err(f) => {
                &&& final(mem)@ == old(mem)@
                &&& f == Fault::OutOfBounds || f == Fault::BufferTooSmall || f == Fault::NoHostname
            },
        },
{
    if !check_signed(mem, name, 1, len as i64) {
        return Err(Fault::OutOfBounds);
    }
    let hostname = match system_hostname() {
        Some(h) => h,
        None => return Err(Fault::NoHostname),
    };
    write_hostname(mem, name, len, hostname.as_slice())
}

/// Creating reduction operators is not offered.
pub fn MPI_Op_create() -> (r: Fault)
    ensures
        r == Fault::Unsupported,
{
    Fault::Unsupported
}

/// Freeing datatypes is not offered.
pub fn MPI_Type_free() -> (r: Fault)
    ensures
        r == Fault::Unsupported,
{
    Fault::Unsupported
}

/// Waiting for several requests at once is not offered.
pub fn MPI_Waitall() -> (r: Fault)
    ensures
        r == Fault::Unsupported,
{
    Fault::Unsupported
}

/// Sandboxed code allocates a C++ exception, which can never be thrown here.
pub fn wasm__cxa_allocate_exception() -> (r: Fault)
    ensures
        r == Fault::Exception,
{
    Fault::Exception
}

/// Sandboxed code throws a C++ exception.
pub fn wasm__cxa_throw() -> (r: Fault)
    ensures
        r == Fault::Exception,
{
    Fault::Exception
}

} // verus!
