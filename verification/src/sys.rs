//! Constants of the C library, and the kernel's constants for AF_XDP.

use vstd::prelude::*;

verus! {

/// Socket option level of AF_XDP.
pub const SOL_XDP: i32 = 283;

/// Socket option that reports where the rings' fields lie in their mappings.
pub const XDP_MMAP_OFFSETS: i32 = 1;

/// Size in bytes of the kernel's `struct xdp_mmap_offsets`: four rings of four
/// 64-bit offsets.
pub const XDP_MMAP_OFFSETS_SIZE: u32 = 128;

/// Page offset under which the socket exposes its RX ring.
pub const XDP_PGOFF_RX_RING: i64 = 0;

/// Page offset under which the socket exposes its TX ring.
pub const XDP_PGOFF_TX_RING: i64 = 0x8000_0000;

/// Page offset under which the socket exposes the fill ring.
pub const XDP_UMEM_PGOFF_FILL_RING: i64 = 0x1_0000_0000;

/// Page offset under which the socket exposes the completion ring.
pub const XDP_UMEM_PGOFF_COMPLETION_RING: i64 = 0x1_8000_0000;

/// Entries of a fill ring that libxdp created with its defaults.
pub const XSK_RING_PROD_DEFAULT_NUM_DESCS: u32 = 2048;

/// Entries of a completion ring that libxdp created with its defaults.
pub const XSK_RING_CONS_DEFAULT_NUM_DESCS: u32 = 2048;

/// Size in bytes of one RX or TX entry, the kernel's `struct xdp_desc`.
pub const XDP_DESC_SIZE: u64 = 16;

/// Size in bytes of one fill or completion entry, a 64-bit UMEM address.
pub const UMEM_ADDR_SIZE: u64 = 8;

/// `libc::MFD_CLOEXEC`: the memfd is not inherited across `exec`. Claimed: it is 1.
#[verifier::external_body]
pub(crate) fn mfd_cloexec() -> (value: u32)
    ensures
        value == 0x1,
{
    libc::MFD_CLOEXEC
}

/// `libc::MFD_HUGETLB`: the memfd is backed by huge pages. Claimed: it is 4.
#[verifier::external_body]
pub(crate) fn mfd_hugetlb() -> (value: u32)
    ensures
        value == 0x4,
{
    libc::MFD_HUGETLB
}

/// `libc::PROT_READ`: the mapping can be read. Claimed: it is 1.
#[verifier::external_body]
pub(crate) fn prot_read() -> (value: i32)
    ensures
        value == 0x1,
{
    libc::PROT_READ
}

/// `libc::PROT_WRITE`: the mapping can be written. Claimed: it is 2.
#[verifier::external_body]
pub(crate) fn prot_write() -> (value: i32)
    ensures
        value == 0x2,
{
    libc::PROT_WRITE
}

/// `libc::MAP_SHARED`: writes go to the file behind the mapping. Claimed: it is 1.
#[verifier::external_body]
pub(crate) fn map_shared() -> (value: i32)
    ensures
        value == 0x1,
{
    libc::MAP_SHARED
}

/// `libc::MAP_POPULATE`: page tables are filled when the mapping is made. Claimed:
/// it is 0x8000 or 0x10000. The second is the value on MIPS, the first that on the
/// other Linux targets; which of them it is depends on the target and is left open.
#[verifier::external_body]
pub(crate) fn map_populate() -> (value: i32)
    ensures
        value == 0x8000 || value == 0x1_0000,
{
    libc::MAP_POPULATE
}

/// `libc::MAP_FAILED`, the address that `mmap` returns on failure. Claimed: it has
/// all bits set.
#[verifier::external_body]
pub(crate) fn map_failed() -> (value: usize)
    ensures
        value == usize::MAX,
{
    libc::MAP_FAILED as usize
}

/// `libc::HUGETLBFS_MAGIC`, the type that the file system of huge pages reports. File
/// system types are 32-bit numbers, held in a word of the target. Claimed: it is
/// 0x958458f6.
#[verifier::external_body]
pub(crate) fn hugetlbfs_magic() -> (value: u32)
    ensures
        value == 0x9584_58f6,
{
    libc::HUGETLBFS_MAGIC as u32
}

/// `libc::EINVAL`, the error code for an invalid argument. Claimed: it is 22.
#[verifier::external_body]
pub(crate) fn einval() -> (value: i32)
    ensures
        value == 22,
{
    libc::EINVAL
}

} // verus!
