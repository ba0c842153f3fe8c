//! The memory region behind a UMEM, backed by a memfd.
//!
//! A memfd (rather than anonymous memory) makes the region shareable with another
//! process, which a handoff without downtime needs. The descriptor stays open for as
//! long as the mapping exists.
//!
//! [`Mmap::new`] and [`Mmap::from_fd`] each start a [`MmapState`]. The caller makes
//! the call that [`MmapState::request`] asks for and hands the reply to
//! [`MmapState::step`], until a step ends in a mapping or in a failure.

use vstd::prelude::*;

use crate::os::{mmap_result, spec_mmap_result, MmapRequest, OsError, OwnedFd, RawMmap, Release};
use crate::sys::{einval, hugetlbfs_magic, mfd_cloexec, mfd_hugetlb};

verus! {

/// A mapped memfd.
#[derive(Debug, PartialEq, Eq, Structural)]
pub struct Mmap {
    pub addr: usize,
    pub len: usize,
    pub fd: OwnedFd,
}

/// A mapping in the making, with the call whose reply is awaited.
#[derive(Debug, PartialEq, Eq, Structural)]
pub enum MmapState {
    /// The memfd is being created.
    Creating { len: usize, use_huge_pages: bool },
    /// The new memfd is being given its size.
    Sizing { fd: OwnedFd, len: usize },
    /// The size of an existing memfd is being read.
    Inspecting { fd: OwnedFd, len: usize },
    /// An existing memfd was found too short, and its file system is being read.
    Identifying { fd: OwnedFd, len: usize },
    /// The memfd is being mapped.
    Mapping { fd: OwnedFd, len: usize },
}

/// The call to make next.
#[derive(Clone, Copy, Debug)]
pub enum MmapCall {
    MemfdCreate { name: &'static str, flags: u32 },
    Ftruncate { fd: i32, len: libc::off_t },
    Fstat { fd: i32 },
    Fstatfs { fd: i32 },
    Mmap(MmapRequest),
}

/// The reply to a call. `errno` is read right after the call and counts only where
/// the call failed.
#[derive(Clone, Copy, Debug, PartialEq, Eq, Structural)]
pub enum MmapReply {
    MemfdCreate { raw_fd: i32, errno: i32 },
    Ftruncate { rc: i32, errno: i32 },
    /// `size` is the file's size as `fstat` reports it.
    Fstat { rc: i32, size: libc::off_t, errno: i32 },
    /// `f_type` is the type of the file's file system as `fstatfs` reports it.
    Fstatfs { rc: i32, f_type: u32, errno: i32 },
    Mmap { addr: usize, errno: i32 },
}

/// Why no mapping came about, and the descriptor that is left to close.
#[derive(Debug, PartialEq, Eq, Structural)]
pub struct MmapFailure {
    pub err: OsError,
    pub close: Option<OwnedFd>,
}

/// Where a reply leads.
#[derive(Debug, PartialEq, Eq, Structural)]
pub enum MmapStep {
    Next(MmapState),
    Ready(Mmap),
    Failed(MmapFailure),
}

/// The name under which the memfd shows up in `/proc`.
pub open spec fn memfd_name() -> Seq<char> {
    "xsk-rs-umem"@
}

/// `MFD_CLOEXEC`, so that the descriptor does not leak across `exec` unless it is
/// handed off, and `MFD_HUGETLB` where huge pages are asked for.
pub open spec fn memfd_flags(use_huge_pages: bool) -> u32 {
    if use_huge_pages {
        5
    } else {
        1
    }
}

/// The failure of a call that left `errno` behind.
pub open spec fn failed(errno: i32, close: Option<OwnedFd>) -> MmapStep {
    MmapStep::Failed(MmapFailure { err: OsError { code: errno }, close })
}

/// A file of `size` bytes holds a mapping of `len` bytes.
pub open spec fn holds(size: libc::off_t, len: usize) -> bool {
    size >= len
}

/// `f_type` stands for the file system of huge pages, where mapping a file gives it the
/// size that the mapping needs.
pub open spec fn is_hugetlbfs(f_type: u32) -> bool {
    f_type == 0x9584_58f6
}

impl MmapState {
    /// The call that this state waits for.
    pub open spec fn requests(self, call: MmapCall) -> bool {
        match self {
            MmapState::Creating { len, use_huge_pages } => call matches MmapCall::MemfdCreate {
                name,
                flags,
            } && name@ == memfd_name() && flags == memfd_flags(use_huge_pages),
            MmapState::Sizing { fd, len } => call == (MmapCall::Ftruncate {
                fd: fd.raw,
                len: len as libc::off_t,
            }),
            MmapState::Inspecting { fd, len } => call == (MmapCall::Fstat { fd: fd.raw }),
            MmapState::Identifying { fd, len } => call == (MmapCall::Fstatfs { fd: fd.raw }),
            MmapState::Mapping { fd, len } => call matches MmapCall::Mmap(request) && request.maps(
                fd.raw,
                len,
                0,
            ),
        }
    }

    /// The step that `reply` takes from this state. A reply to another call than the
    /// awaited one is passed over.
    pub open spec fn after(self, reply: MmapReply) -> MmapStep {
        match (self, reply) {
            (
                MmapState::Creating { len, use_huge_pages },
                MmapReply::MemfdCreate { raw_fd, errno },
            ) => if raw_fd < 0 {
                failed(errno, None)
            } else if use_huge_pages {
                MmapStep::Next(MmapState::Mapping { fd: OwnedFd { raw: raw_fd }, len })
            } else {
                MmapStep::Next(MmapState::Sizing { fd: OwnedFd { raw: raw_fd }, len })
            },
            (MmapState::Sizing { fd, len }, MmapReply::Ftruncate { rc, errno }) => if rc != 0 {
                failed(errno, Some(fd))
            } else {
                MmapStep::Next(MmapState::Mapping { fd, len })
            },
            (MmapState::Inspecting { fd, len }, MmapReply::Fstat { rc, size, errno }) => if rc
                != 0 {
                failed(errno, Some(fd))
            } else if holds(size, len) {
                MmapStep::Next(MmapState::Mapping { fd, len })
            } else {
                MmapStep::Next(MmapState::Identifying { fd, len })
            },
            (MmapState::Identifying { fd, len }, MmapReply::Fstatfs { rc, f_type, errno }) => if rc
                != 0 {
                failed(errno, Some(fd))
            } else if is_hugetlbfs(f_type) {
                MmapStep::Next(MmapState::Mapping { fd, len })
            } else {
                failed(22, Some(fd))
            },
            (MmapState::Mapping { fd, len }, MmapReply::Mmap { addr, errno }) => {
                match spec_mmap_result(addr, errno) {
                    Ok(addr) => MmapStep::Ready(Mmap { addr, len, fd }),
                    Err(err) => failed(err.code, Some(fd)),
                }
            },
            _ => MmapStep::Next(self),
        }
    }

    /// The call to make next.
    pub fn request(&self) -> (call: MmapCall)
        ensures
            self.requests(call),
    {
        match self {
            MmapState::Creating { use_huge_pages, .. } => {
                let mut flags: u32 = mfd_cloexec();
                if *use_huge_pages {
                    flags = flags | mfd_hugetlb();
                }
                proof {
                    assert(0x1u32 | 0x4u32 == 5) by (bit_vector);
                }
                MmapCall::MemfdCreate { name: "xsk-rs-umem", flags }
            },
            MmapState::Sizing { fd, len } => {
                MmapCall::Ftruncate { fd: fd.as_raw_fd(), len: *len as libc::off_t }
            },
            MmapState::Inspecting { fd, .. } => MmapCall::Fstat { fd: fd.as_raw_fd() },
            MmapState::Identifying { fd, .. } => MmapCall::Fstatfs { fd: fd.as_raw_fd() },
            MmapState::Mapping { fd, len } => MmapCall::Mmap(MmapRequest::shared(fd, *len, 0)),
        }
    }

    /// Takes the reply to the awaited call. A successful `mmap` never returns the null
    /// address here, since the kernel chooses where to map.
    pub fn step(self, reply: MmapReply) -> (step: MmapStep)
        requires
            self is Mapping ==> !(reply matches MmapReply::Mmap { addr, errno } && addr == 0),
        ensures
            step == self.after(reply),
    {
        match (self, reply) {
            (
                MmapState::Creating { len, use_huge_pages },
                MmapReply::MemfdCreate { raw_fd, errno },
            ) => {
                if raw_fd < 0 {
                    return MmapStep::Failed(
                        MmapFailure { err: OsError::from_raw_os_error(errno), close: None },
                    );
                }
                let fd = OwnedFd::new(raw_fd);
                if use_huge_pages {
                    // A huge-page memfd refuses `ftruncate`: mapping it sets its size.
                    MmapStep::Next(MmapState::Mapping { fd, len })
                } else {
                    MmapStep::Next(MmapState::Sizing { fd, len })
                }
            },
            (MmapState::Sizing { fd, len }, MmapReply::Ftruncate { rc, errno }) => {
                if rc != 0 {
                    let err = OsError::from_raw_os_error(errno);
                    MmapStep::Failed(MmapFailure { err, close: Some(fd) })
                } else {
                    MmapStep::Next(MmapState::Mapping { fd, len })
                }
            },
            (MmapState::Inspecting { fd, len }, MmapReply::Fstat { rc, size, errno }) => {
                if rc != 0 {
                    let err = OsError::from_raw_os_error(errno);
                    MmapStep::Failed(MmapFailure { err, close: Some(fd) })
                } else if size < 0 || (size as u64) < len as u64 {
                    MmapStep::Next(MmapState::Identifying { fd, len })
                } else {
                    MmapStep::Next(MmapState::Mapping { fd, len })
                }
            },
            (MmapState::Identifying { fd, len }, MmapReply::Fstatfs { rc, f_type, errno }) => {
                if rc != 0 {
                    let err = OsError::from_raw_os_error(errno);
                    MmapStep::Failed(MmapFailure { err, close: Some(fd) })
                } else if f_type == hugetlbfs_magic() {
                    MmapStep::Next(MmapState::Mapping { fd, len })
                } else {
                    let err = OsError::from_raw_os_error(einval());
                    MmapStep::Failed(MmapFailure { err, close: Some(fd) })
                }
            },
            (MmapState::Mapping { fd, len }, MmapReply::Mmap { addr, errno }) => {
                match mmap_result(addr, errno) {
                    Ok(addr) => MmapStep::Ready(Mmap { addr, len, fd }),
                    Err(err) => MmapStep::Failed(MmapFailure { err, close: Some(fd) }),
                }
            },
            (state, _) => MmapStep::Next(state),
        }
    }
}

impl Mmap {
    /// Starts to create and map a memfd of `len` bytes, on huge pages where asked for.
    pub fn new(len: usize, use_huge_pages: bool) -> (state: MmapState)
        ensures
            state == (MmapState::Creating { len, use_huge_pages }),
    {
        MmapState::Creating { len, use_huge_pages }
    }

    /// Starts to map an existing memfd. The descriptor is adopted: it is closed when
    /// the mapping is released, and handed back to be closed where none comes about.
    ///
    /// A memfd shorter than `len` is refused, since a mapping that reaches past the
    /// end of its file faults on access. One on huge pages is not, since mapping it
    /// gives it the size that the mapping needs.
    pub fn from_fd(fd: OwnedFd, len: usize) -> (state: MmapState)
        ensures
            state == (MmapState::Inspecting { fd, len }),
    {
        MmapState::Inspecting { fd, len }
    }

    /// The address where the mapped region starts.
    pub fn addr(&self) -> (addr: usize)
        ensures
            addr == self.addr,
    {
        self.addr
    }

    /// Borrows the memfd that backs this region, for example to send it to a successor.
    pub fn as_fd(&self) -> (fd: &OwnedFd)
        ensures
            *fd == self.fd,
    {
        &self.fd
    }

    /// The number of the memfd. The caller must not close it.
    pub fn as_raw_fd(&self) -> (raw: i32)
        ensures
            raw == self.fd.raw,
    {
        self.fd.as_raw_fd()
    }

    /// How to give the mapping up: unmap the region, and only then close the memfd.
    pub fn release(&self) -> (steps: Vec<Release>)
        ensures
            steps@ == self.release_steps(),
            steps@.len() == 2,
            steps@[0] == (Release::Unmap { region: RawMmap { addr: self.addr, len: self.len } }),
            steps@[1] == (Release::CloseFd { fd: self.fd.raw }),
    {
        let region = RawMmap { addr: self.addr, len: self.len };
        vec![Release::Unmap { region }, Release::CloseFd { fd: self.fd.raw }]
    }

    /// Unmap the region, then close the memfd.
    pub open spec fn release_steps(self) -> Seq<Release> {
        seq![
            Release::Unmap { region: RawMmap { addr: self.addr, len: self.len } },
            Release::CloseFd { fd: self.fd.raw },
        ]
    }
}

} // verus!
