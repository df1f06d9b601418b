//! Decoding of the `kvm_run` control block that the kernel fills in when a
//! virtual CPU leaves guest mode.
//!
//! The block is a fixed header followed by a union whose active member is
//! named by the exit reason in the header. Nothing of the union is read
//! before the reason has been looked at, and every data range handed out
//! lies inside the block.
use vstd::prelude::*;
use crate::error::Error;
use crate::layout::{le, read_le};

verus! {

/// Offset of the 32-bit exit reason in the control block.
pub const EXIT_REASON_OFFSET: usize = 8;

/// Offset of the exit-specific union in the control block.
pub const EXIT_UNION_OFFSET: usize = 32;

/// The number of leading bytes of the control block that decoding reads.
pub const RUN_HEADER_LEN: usize = 56;

/// Exit reason of a port I/O instruction.
pub const EXIT_IO: u64 = 2;

/// Exit reason of an access to memory-mapped I/O.
pub const EXIT_MMIO: u64 = 6;

/// The largest exit reason that this library knows.
pub const EXIT_REASON_MAX: u64 = 24;

/// Direction value of an `in` instruction in the I/O exit data.
pub const IO_IN: u8 = 0;

/// Direction value of an `out` instruction in the I/O exit data.
pub const IO_OUT: u8 = 1;

/// Offset of the inline data of an MMIO exit.
pub const MMIO_DATA_OFFSET: usize = 40;

/// Size of the inline data buffer of an MMIO exit.
pub const MMIO_DATA_LEN: u64 = 8;

/// Bytes of the control block that hold the data of an I/O or MMIO exit.
#[derive(Clone, Copy, Debug, PartialEq, Eq, Structural)]
pub struct DataRange {
    pub offset: usize,
    pub len: usize,
}

/// A reason why a virtual CPU exited.
///
/// `R` is what stands for data the guest wrote (to be read by the caller),
/// `W` for data the guest wants to read (to be filled in by the caller
/// before the next run).
#[derive(Clone, Copy, Debug, PartialEq, Eq)]
pub enum VcpuExit<R, W> {
    /// An `out` instruction was run on the given port with the given data.
    IoOut(u16, R),
    /// An `in` instruction was run on the given port.
    IoIn(u16, W),
    /// A read was run against the given MMIO address.
    MmioRead(u64, W),
    /// A write was run against the given MMIO address with the given data.
    MmioWrite(u64, R),
    Unknown,
    Exception,
    Hypercall,
    Debug,
    Hlt,
    IrqWindowOpen,
    Shutdown,
    FailEntry,
    Intr,
    SetTpr,
    TprAccess,
    S390Sieic,
    S390Reset,
    Dcr,
    Nmi,
    InternalError,
    Osi,
    PaprHcall,
    S390Ucontrol,
    Watchdog,
    S390Tsch,
    Epr,
    SystemEvent,
}

/// A decoded exit whose data is given as ranges of the control block.
pub type DecodedExit = VcpuExit<DataRange, DataRange>;

/// The exit reason stored in the control block `b`.
pub open spec fn exit_reason_of(b: Seq<u8>) -> nat {
    le(b, EXIT_REASON_OFFSET as int, 4)
}

/// `b` is long enough to decode and names an exit reason this library knows.
pub open spec fn known_exit(b: Seq<u8>) -> bool {
    b.len() >= RUN_HEADER_LEN && exit_reason_of(b) <= EXIT_REASON_MAX
}

/// The exit for a reason that carries no payload.
pub open spec fn plain_exit(reason: nat) -> DecodedExit {
    if reason == 0 {
        VcpuExit::Unknown
    } else if reason == 1 {
        VcpuExit::Exception
    } else if reason == 3 {
        VcpuExit::Hypercall
    } else if reason == 4 {
        VcpuExit::Debug
    } else if reason == 5 {
        VcpuExit::Hlt
    } else if reason == 7 {
        VcpuExit::IrqWindowOpen
    } else if reason == 8 {
        VcpuExit::Shutdown
    } else if reason == 9 {
        VcpuExit::FailEntry
    } else if reason == 10 {
        VcpuExit::Intr
    } else if reason == 11 {
        VcpuExit::SetTpr
    } else if reason == 12 {
        VcpuExit::TprAccess
    } else if reason == 13 {
        VcpuExit::S390Sieic
    } else if reason == 14 {
        VcpuExit::S390Reset
    } else if reason == 15 {
        VcpuExit::Dcr
    } else if reason == 16 {
        VcpuExit::Nmi
    } else if reason == 17 {
        VcpuExit::InternalError
    } else if reason == 18 {
        VcpuExit::Osi
    } else if reason == 19 {
        VcpuExit::PaprHcall
    } else if reason == 20 {
        VcpuExit::S390Ucontrol
    } else if reason == 21 {
        VcpuExit::Watchdog
    } else if reason == 22 {
        VcpuExit::S390Tsch
    } else if reason == 23 {
        VcpuExit::Epr
    } else {
        VcpuExit::SystemEvent
    }
}

/// The error given for a payload that does not fit the control block.
pub open spec fn malformed() -> Result<DecodedExit, Error> {
    Err(Error { errno: 22 })
}

/// The exit described by the I/O member of the union: `count * size` bytes
/// at `data_offset` of the block, in the direction that the member names.
pub open spec fn io_exit(b: Seq<u8>) -> Result<DecodedExit, Error> {
    let u = EXIT_UNION_OFFSET as int;
    let direction = b[u];
    let size = b[u + 1] as nat;
    let port = le(b, u + 2, 2);
    let count = le(b, u + 4, 4);
    let offset = le(b, u + 8, 8);
    let range = DataRange { offset: offset as usize, len: (count * size) as usize };
    if offset + count * size > b.len() {
        malformed()
    } else if direction == IO_IN {
        Ok(VcpuExit::IoIn(port as u16, range))
    } else if direction == IO_OUT {
        Ok(VcpuExit::IoOut(port as u16, range))
    } else {
        malformed()
    }
}

/// The exit described by the MMIO member of the union: the first `len`
/// bytes of its inline data, read or written as its `is_write` byte says.
pub open spec fn mmio_exit(b: Seq<u8>) -> Result<DecodedExit, Error> {
    let u = EXIT_UNION_OFFSET as int;
    let addr = le(b, u, 8);
    let len = le(b, u + 16, 4);
    let range = DataRange { offset: MMIO_DATA_OFFSET, len: len as usize };
    if len > MMIO_DATA_LEN {
        malformed()
    } else if b[u + 20] != 0 {
        Ok(VcpuExit::MmioWrite(addr as u64, range))
    } else {
        Ok(VcpuExit::MmioRead(addr as u64, range))
    }
}

/// What the control block `b` says of the last exit.
pub open spec fn exit_of(b: Seq<u8>) -> Result<DecodedExit, Error> {
    let reason = exit_reason_of(b);
    if reason == EXIT_IO {
        io_exit(b)
    } else if reason == EXIT_MMIO {
        mmio_exit(b)
    } else {
        Ok(plain_exit(reason))
    }
}

/// Whatever known exit reason the kernel leaves, decoding yields an exit:
/// a reason without payload always decodes to its variant, and an I/O or
/// MMIO exit decodes to its variant unless its payload does not fit the
/// block, which gives `EINVAL` and nothing else.
pub proof fn lemma_known_exit_decodes(b: Seq<u8>)
    requires
        known_exit(b),
    ensures
        exit_of(b) is Ok || exit_of(b) == malformed(),
        exit_reason_of(b) != EXIT_IO && exit_reason_of(b) != EXIT_MMIO ==> exit_of(b) == Ok::<
            DecodedExit,
            Error,
        >(plain_exit(exit_reason_of(b))),
        exit_reason_of(b) == EXIT_IO && exit_of(b) is Ok ==> exit_of(b)->Ok_0 is IoIn
            || exit_of(b)->Ok_0 is IoOut,
        exit_reason_of(b) == EXIT_MMIO && exit_of(b) is Ok ==> exit_of(b)->Ok_0 is MmioRead
            || exit_of(b)->Ok_0 is MmioWrite,
{
}

/// Tells whether `block` can be decoded: it holds the header and an exit
/// reason that this library knows. A known reason is the kernel's promise;
/// any other is a mismatch of ABI versions.
pub fn exit_reason_is_known(block: &[u8]) -> (r: bool)
    ensures
        r == known_exit(block@),
{
    if block.len() < RUN_HEADER_LEN {
        return false;
    }
    read_le(block, EXIT_REASON_OFFSET, 4) <= EXIT_REASON_MAX
}

fn plain_exit_exec(reason: u64) -> (r: DecodedExit)
    ensures
        r == plain_exit(reason as nat),
{
    match reason {
        0 => VcpuExit::Unknown,
        1 => VcpuExit::Exception,
        3 => VcpuExit::Hypercall,
        4 => VcpuExit::Debug,
        5 => VcpuExit::Hlt,
        7 => VcpuExit::IrqWindowOpen,
        8 => VcpuExit::Shutdown,
        9 => VcpuExit::FailEntry,
        10 => VcpuExit::Intr,
        11 => VcpuExit::SetTpr,
        12 => VcpuExit::TprAccess,
        13 => VcpuExit::S390Sieic,
        14 => VcpuExit::S390Reset,
        15 => VcpuExit::Dcr,
        16 => VcpuExit::Nmi,
        17 => VcpuExit::InternalError,
        18 => VcpuExit::Osi,
        19 => VcpuExit::PaprHcall,
        20 => VcpuExit::S390Ucontrol,
        21 => VcpuExit::Watchdog,
        22 => VcpuExit::S390Tsch,
        23 => VcpuExit::Epr,
        _ => VcpuExit::SystemEvent,
    }
}

fn decode_io(block: &[u8]) -> (r: Result<DecodedExit, Error>)
    requires
        block@.len() >= RUN_HEADER_LEN,
    ensures
        r == io_exit(block@),
{
    let u = EXIT_UNION_OFFSET;
    let direction = block[u];
    let size = block[u + 1] as u64;
    let port = read_le(block, u + 2, 2);
    let count = read_le(block, u + 4, 4);
    let offset = read_le(block, u + 8, 8);
    proof {
        crate::layout::lemma_le_bound(block@, u + 2, 2);
        crate::layout::lemma_le_bound(block@, u + 4, 4);
        reveal_with_fuel(crate::layout::pow256, 5);
    }
    assert(count * size <= 0xffff_ffff * 255) by (nonlinear_arith)
        requires
            count <= 0xffff_ffff,
            size <= 255,
    ;
    let len = count * size;
    let block_len = block.len() as u64;
    if offset > block_len || len > block_len - offset {
        return Err(Error::invalid_argument());
    }
    let range = DataRange { offset: offset as usize, len: len as usize };
    if direction == IO_IN {
        Ok(VcpuExit::IoIn(port as u16, range))
    } else if direction == IO_OUT {
        Ok(VcpuExit::IoOut(port as u16, range))
    } else {
        Err(Error::invalid_argument())
    }
}

fn decode_mmio(block: &[u8]) -> (r: Result<DecodedExit, Error>)
    requires
        block@.len() >= RUN_HEADER_LEN,
    ensures
        r == mmio_exit(block@),
{
    let u = EXIT_UNION_OFFSET;
    let addr = read_le(block, u, 8);
    let len = read_le(block, u + 16, 4);
    if len > MMIO_DATA_LEN {
        return Err(Error::invalid_argument());
    }
    let range = DataRange { offset: MMIO_DATA_OFFSET, len: len as usize };
    if block[u + 20] != 0 {
        Ok(VcpuExit::MmioWrite(addr, range))
    } else {
        Ok(VcpuExit::MmioRead(addr, range))
    }
}

/// Decodes the control block of a virtual CPU after a run request returned.
///
/// The exit reason selects the one union member that is read. An I/O exit
/// names `count * size` bytes at the member's data offset; an MMIO exit the
/// first `len` bytes of its inline buffer. A payload whose data would lie
/// outside the block, an MMIO length over the inline buffer, or an I/O
/// direction that is neither in nor out gives `EINVAL`.
pub fn decode_exit(block: &[u8]) -> (r: Result<DecodedExit, Error>)
    requires
        known_exit(block@),
    ensures
        r == exit_of(block@),
        r matches Ok(e) ==> match e {
            VcpuExit::IoOut(_, d) | VcpuExit::IoIn(_, d) | VcpuExit::MmioRead(_, d)
            | VcpuExit::MmioWrite(_, d) => d.offset + d.len <= block@.len(),
            _ => true,
        },
{
    let reason = read_le(block, EXIT_REASON_OFFSET, 4);
    if reason == EXIT_IO {
        decode_io(block)
    } else if reason == EXIT_MMIO {
        decode_mmio(block)
    } else {
        Ok(plain_exit_exec(reason))
    }
}

} // verus!
