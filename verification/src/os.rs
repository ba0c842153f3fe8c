//! Plain values for what the operating system hands out: descriptors, error codes
//! and memory mappings.

use vstd::prelude::*;

use crate::sys::{map_failed, map_populate, map_shared, prot_read, prot_write};

verus! {

/// A file descriptor with an owner. It is neither `Copy` nor `Clone`: whoever holds
/// the value closes the descriptor.
#[derive(Debug, PartialEq, Eq, Structural)]
pub struct OwnedFd {
    pub raw: i32,
}

impl OwnedFd {
    /// Takes ownership of an open descriptor.
    pub fn new(raw: i32) -> (fd: OwnedFd)
        requires
            raw != -1,
        ensures
            fd.raw == raw,
    {
        OwnedFd { raw }
    }

    /// The descriptor's number, without giving up ownership.
    pub fn as_raw_fd(&self) -> (raw: i32)
        ensures
            raw == self.raw,
    {
        self.raw
    }
}

/// An error code of the operating system, as `errno` holds it.
#[derive(Clone, Copy, Debug, PartialEq, Eq, Structural)]
pub struct OsError {
    pub code: i32,
}

impl OsError {
    pub fn from_raw_os_error(code: i32) -> (err: OsError)
        ensures
            err.code == code,
    {
        OsError { code }
    }

    /// The code that this error stands for. There always is one.
    pub fn raw_os_error(&self) -> (code: Option<i32>)
        ensures
            code == Some(self.code),
    {
        Some(self.code)
    }
}

/// A mapped memory region.
#[derive(Clone, Copy, Debug, PartialEq, Eq, Structural)]
pub struct RawMmap {
    pub addr: usize,
    pub len: usize,
}

/// One step in giving resources back.
#[derive(Clone, Copy, Debug, PartialEq, Eq, Structural)]
pub enum Release {
    /// Call `xsk_socket__delete` on the socket at this address.
    DeleteSocket { ptr: usize },
    /// Close the descriptor.
    CloseFd { fd: i32 },
    /// Drop the handle to the UMEM.
    DropUmem,
    /// Call `munmap` on the region.
    Unmap { region: RawMmap },
}

/// Each region unmapped once, in order.
pub open spec fn unmap_steps(regions: Seq<RawMmap>) -> Seq<Release> {
    regions.map_values(|region: RawMmap| Release::Unmap { region })
}

/// Appends the steps that unmap each region once, in order.
pub fn append_unmap_steps(steps: &mut Vec<Release>, regions: &Vec<RawMmap>)
    ensures
        final(steps)@ == old(steps)@ + unmap_steps(regions@),
        final(steps)@.len() == old(steps)@.len() + regions@.len(),
{
    let ghost before = steps@;
    let mut i: usize = 0;
    while i < regions.len()
        invariant
            i <= regions@.len(),
            steps@ =~= before + unmap_steps(regions@.take(i as int)),
        decreases regions@.len() - i,
    {
        let region = regions[i];
        steps.push(Release::Unmap { region });
        assert(unmap_steps(regions@.take(i + 1)) =~= unmap_steps(regions@.take(i as int)).push(
            Release::Unmap { region },
        ));
        i = i + 1;
    }
    assert(regions@.take(i as int) =~= regions@);
}

/// The arguments of an `mmap` call. The kernel chooses the address.
#[derive(Clone, Copy, Debug, PartialEq, Eq, Structural)]
pub struct MmapRequest {
    pub len: usize,
    pub prot: i32,
    pub flags: i32,
    pub fd: i32,
    pub offset: libc::off_t,
}

/// `PROT_READ | PROT_WRITE`.
pub open spec fn is_read_write(prot: i32) -> bool {
    prot == 3
}

/// `MAP_SHARED | MAP_POPULATE`, with either of the two values that the second bit
/// has among the targets.
pub open spec fn is_shared_and_populated(flags: i32) -> bool {
    flags == 0x8001 || flags == 0x1_0001
}

impl MmapRequest {
    /// This request asks for the `len` bytes of `fd` that start at `offset`, to be
    /// read and written, shared with everyone who maps the same file, and populated
    /// up front.
    pub open spec fn maps(self, fd: i32, len: usize, offset: libc::off_t) -> bool {
        &&& self.len == len
        &&& self.fd == fd
        &&& self.offset == offset
        &&& is_read_write(self.prot)
        &&& is_shared_and_populated(self.flags)
    }

    pub fn shared(fd: &OwnedFd, len: usize, offset: libc::off_t) -> (request: MmapRequest)
        ensures
            request.maps(fd.raw, len, offset),
            request.fd == fd.raw,
            request.len == len,
            request.offset == offset,
    {
        let prot: i32 = prot_read() | prot_write();
        let flags: i32 = map_shared() | map_populate();
        proof {
            assert(0x1i32 | 0x2i32 == 3) by (bit_vector);
            assert(0x1i32 | 0x8000i32 == 0x8001) by (bit_vector);
            assert(0x1i32 | 0x1_0000i32 == 0x1_0001) by (bit_vector);
        }
        MmapRequest { len, prot, flags, fd: fd.as_raw_fd(), offset }
    }
}

/// What an `mmap` call returned, given the address and the `errno` after it: the
/// address, unless it is the one that stands for failure.
pub fn mmap_result(addr: usize, errno: i32) -> (result: Result<usize, OsError>)
    ensures
        result == spec_mmap_result(addr, errno),
        result is Err <==> addr == usize::MAX,
        result matches Ok(mapped) ==> mapped == addr,
        result matches Err(err) ==> err.code == errno,
{
    if addr == map_failed() {
        Err(OsError::from_raw_os_error(errno))
    } else {
        Ok(addr)
    }
}

pub open spec fn spec_mmap_result(addr: usize, errno: i32) -> Result<usize, OsError> {
    if addr == usize::MAX {
        Err(OsError { code: errno })
    } else {
        Ok(addr)
    }
}

} // verus!
