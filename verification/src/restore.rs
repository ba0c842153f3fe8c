//! Rebuilding a socket from a descriptor that was inherited from a predecessor.
//!
//! libxdp has no part in it: the kernel is asked where the rings' fields lie, the four
//! rings are mapped one after the other, and their indices are read from memory.
//! [`Socket::from_inherited_fd`] starts a [`RestoreState`]. The caller makes the call
//! that [`RestoreState::request`] asks for and hands the reply to
//! [`RestoreState::step`], until a step ends in a [`Restored`] socket or in a failure.

use std::sync::Arc;
use vstd::prelude::*;

use crate::error::SocketCreateError;
use crate::os::{mmap_result, spec_mmap_result, MmapRequest, OsError, OwnedFd, RawMmap};
use crate::ring::{
    build_ring_cons, build_ring_prod, ring_cons, ring_prod, MmapOffsets, RingOffset, XskRingCons,
    XskRingProd,
};
use crate::socket::{
    CompQueue, Fd, FillQueue, RxQueue, Socket, SocketConfig, SocketInner, SocketOwner, TxQueue,
};
use crate::sys::{
    SOL_XDP, UMEM_ADDR_SIZE, XDP_DESC_SIZE, XDP_MMAP_OFFSETS, XDP_MMAP_OFFSETS_SIZE,
    XDP_PGOFF_RX_RING, XDP_PGOFF_TX_RING, XDP_UMEM_PGOFF_COMPLETION_RING, XDP_UMEM_PGOFF_FILL_RING,
    XSK_RING_CONS_DEFAULT_NUM_DESCS, XSK_RING_PROD_DEFAULT_NUM_DESCS,
};
use crate::umem::{Umem, UmemInner};

verus! {

/// One of a socket's four rings.
#[derive(Clone, Copy, Debug, PartialEq, Eq, Structural)]
pub enum RingKind {
    /// The kernel produces, this process consumes received packets.
    Rx,
    /// This process produces, the kernel consumes packets to send.
    Tx,
    /// This process produces, the kernel consumes free frames.
    Fill,
    /// The kernel produces, this process consumes frames that were sent.
    Completion,
}

impl RingKind {
    /// The page offset under which the socket exposes the ring.
    pub open spec fn page_offset(self) -> libc::off_t {
        match self {
            RingKind::Rx => XDP_PGOFF_RX_RING,
            RingKind::Tx => XDP_PGOFF_TX_RING,
            RingKind::Fill => XDP_UMEM_PGOFF_FILL_RING,
            RingKind::Completion => XDP_UMEM_PGOFF_COMPLETION_RING,
        }
    }

    /// The bytes that `size` entries take. An entry is a packet descriptor of 16 bytes
    /// in RX and TX, and a UMEM address of 8 bytes in fill and completion.
    pub open spec fn descs_len(self, size: u32) -> int {
        match self {
            RingKind::Rx | RingKind::Tx => 16 * size,
            RingKind::Fill | RingKind::Completion => 8 * size,
        }
    }

    fn count_descs_len(self, size: u32) -> (len: u64)
        ensures
            len == self.descs_len(size),
    {
        match self {
            RingKind::Rx | RingKind::Tx => XDP_DESC_SIZE * size as u64,
            RingKind::Fill | RingKind::Completion => UMEM_ADDR_SIZE * size as u64,
        }
    }
}

impl MmapOffsets {
    pub open spec fn spec_of(self, kind: RingKind) -> RingOffset {
        match kind {
            RingKind::Rx => self.rx,
            RingKind::Tx => self.tx,
            RingKind::Fill => self.fr,
            RingKind::Completion => self.cr,
        }
    }

    /// The offsets of one ring.
    pub fn of(&self, kind: RingKind) -> (off: RingOffset)
        ensures
            off == self.spec_of(kind),
    {
        match kind {
            RingKind::Rx => self.rx,
            RingKind::Tx => self.tx,
            RingKind::Fill => self.fr,
            RingKind::Completion => self.cr,
        }
    }
}

/// What is known of an inherited socket from the start.
#[derive(Debug)]
pub struct Inherited {
    pub fd: OwnedFd,
    pub rx_size: u32,
    pub tx_size: u32,
}

impl Inherited {
    /// A ring has at least one entry.
    pub open spec fn valid(self) -> bool {
        self.rx_size >= 1 && self.tx_size >= 1
    }

    /// The entries of a ring. Those of the fill and completion rings were set with the
    /// UMEM, not with the socket: the defaults of libxdp are assumed.
    pub open spec fn spec_ring_size(self, kind: RingKind) -> u32 {
        match kind {
            RingKind::Rx => self.rx_size,
            RingKind::Tx => self.tx_size,
            RingKind::Fill => XSK_RING_PROD_DEFAULT_NUM_DESCS,
            RingKind::Completion => XSK_RING_CONS_DEFAULT_NUM_DESCS,
        }
    }

    /// The bytes of a ring's region: everything up to its last descriptor.
    pub open spec fn spec_ring_len(self, offsets: MmapOffsets, kind: RingKind) -> int {
        offsets.spec_of(kind).desc + kind.descs_len(self.spec_ring_size(kind))
    }

    /// The bytes of a ring's region can be counted.
    pub open spec fn ring_fits(self, offsets: MmapOffsets, kind: RingKind) -> bool {
        self.spec_ring_len(offsets, kind) <= usize::MAX && self.spec_ring_len(offsets, kind)
            <= u64::MAX
    }

    /// The region of a ring that was mapped at `base`.
    pub open spec fn region(self, offsets: MmapOffsets, kind: RingKind, base: usize) -> RawMmap {
        RawMmap { addr: base, len: self.spec_ring_len(offsets, kind) as usize }
    }

    fn ring_size(&self, kind: RingKind) -> (size: u32)
        ensures
            size == self.spec_ring_size(kind),
    {
        match kind {
            RingKind::Rx => self.rx_size,
            RingKind::Tx => self.tx_size,
            RingKind::Fill => XSK_RING_PROD_DEFAULT_NUM_DESCS,
            RingKind::Completion => XSK_RING_CONS_DEFAULT_NUM_DESCS,
        }
    }

    fn ring_len(&self, offsets: &MmapOffsets, kind: RingKind) -> (len: usize)
        requires
            self.ring_fits(*offsets, kind),
        ensures
            len == self.spec_ring_len(*offsets, kind),
    {
        let descs_len: u64 = kind.count_descs_len(self.ring_size(kind));
        (offsets.of(kind).desc + descs_len) as usize
    }

    fn check_ring_fits(&self, offsets: &MmapOffsets, kind: RingKind) -> (fits: bool)
        ensures
            fits == self.ring_fits(*offsets, kind),
    {
        let descs_len: u64 = kind.count_descs_len(self.ring_size(kind));
        match offsets.of(kind).desc.checked_add(descs_len) {
            Some(len) => len <= usize::MAX as u64,
            None => false,
        }
    }
}

/// A ring that was mapped at `base`, with the indices that were read from it.
#[derive(Clone, Copy, Debug, PartialEq, Eq, Structural)]
pub struct MappedRing {
    pub base: usize,
    pub producer: u32,
    pub consumer: u32,
}

impl MappedRing {
    /// The ring's region has a length, and all fields of the ring have addresses.
    pub open spec fn sound(self, socket: Inherited, offsets: MmapOffsets, kind: RingKind) -> bool {
        socket.ring_fits(offsets, kind) && offsets.spec_of(kind).reachable_from(self.base)
    }
}

/// How far the mapping of the rings has come: the ring at hand and those before it.
#[derive(Clone, Copy, Debug, PartialEq, Eq, Structural)]
pub enum Progress {
    Rx,
    Tx { rx: MappedRing },
    Fill { rx: MappedRing, tx: MappedRing },
    Completion { rx: MappedRing, tx: MappedRing, fr: MappedRing },
}

impl Progress {
    pub open spec fn spec_kind(self) -> RingKind {
        match self {
            Progress::Rx => RingKind::Rx,
            Progress::Tx { .. } => RingKind::Tx,
            Progress::Fill { .. } => RingKind::Fill,
            Progress::Completion { .. } => RingKind::Completion,
        }
    }

    /// The rings before the one at hand have lengths, and addresses for all of their
    /// fields.
    pub open spec fn sound(self, socket: Inherited, offsets: MmapOffsets) -> bool {
        match self {
            Progress::Rx => true,
            Progress::Tx { rx } => rx.sound(socket, offsets, RingKind::Rx),
            Progress::Fill { rx, tx } => rx.sound(socket, offsets, RingKind::Rx) && tx.sound(
                socket,
                offsets,
                RingKind::Tx,
            ),
            Progress::Completion { rx, tx, fr } => rx.sound(socket, offsets, RingKind::Rx)
                && tx.sound(socket, offsets, RingKind::Tx) && fr.sound(
                socket,
                offsets,
                RingKind::Fill,
            ),
        }
    }

    /// The ring after the one at hand.
    pub open spec fn spec_next_kind(self) -> Option<RingKind> {
        match self {
            Progress::Rx => Some(RingKind::Tx),
            Progress::Tx { .. } => Some(RingKind::Fill),
            Progress::Fill { .. } => Some(RingKind::Completion),
            Progress::Completion { .. } => None,
        }
    }

    /// The ring after the one at hand, unless that is the last one.
    pub fn next_kind(&self) -> (kind: Option<RingKind>)
        ensures
            kind == self.spec_next_kind(),
    {
        match self {
            Progress::Rx => Some(RingKind::Tx),
            Progress::Tx { .. } => Some(RingKind::Fill),
            Progress::Fill { .. } => Some(RingKind::Completion),
            Progress::Completion { .. } => None,
        }
    }

    /// The ring at hand.
    pub fn kind(&self) -> (kind: RingKind)
        ensures
            kind == self.spec_kind(),
    {
        match self {
            Progress::Rx => RingKind::Rx,
            Progress::Tx { .. } => RingKind::Tx,
            Progress::Fill { .. } => RingKind::Fill,
            Progress::Completion { .. } => RingKind::Completion,
        }
    }
}

/// A socket being rebuilt, with the call whose reply is awaited.
#[derive(Debug)]
pub enum RestoreState {
    /// The kernel is asked for the offsets of the rings' fields.
    Locating { socket: Inherited },
    /// The ring at hand is being mapped.
    Mapping { socket: Inherited, offsets: MmapOffsets, progress: Progress },
    /// The indices of the ring at hand, mapped at `base`, are being read.
    Reading { socket: Inherited, offsets: MmapOffsets, progress: Progress, base: usize },
}

/// The call to make next.
#[derive(Clone, Copy, Debug, PartialEq, Eq, Structural)]
pub enum RestoreCall {
    /// Read the socket option into a zeroed `struct xdp_mmap_offsets`.
    Getsockopt { fd: i32, level: i32, option: i32, len: u32 },
    Mmap(MmapRequest),
    /// Read the two 32-bit indices at these addresses.
    ReadIndices { producer: usize, consumer: usize },
}

/// The reply to a call. `errno` is read right after the call and counts only where the
/// call failed.
#[derive(Clone, Copy, Debug, PartialEq, Eq, Structural)]
pub enum RestoreReply {
    Getsockopt { rc: i32, offsets: MmapOffsets, errno: i32 },
    Mmap { addr: usize, errno: i32 },
    ReadIndices { producer: u32, consumer: u32 },
}

/// Why the socket could not be rebuilt. Its descriptor is left to close. Rings that
/// were mapped before the failure stay mapped.
#[derive(Debug)]
pub struct RestoreFailure {
    pub error: SocketCreateError,
    pub close: OwnedFd,
}

/// A socket whose four rings are mapped.
#[derive(Debug)]
pub struct Restored {
    pub socket: Inherited,
    pub offsets: MmapOffsets,
    pub rx: MappedRing,
    pub tx: MappedRing,
    pub fr: MappedRing,
    pub cr: MappedRing,
}

/// Where a reply leads.
#[derive(Debug)]
pub enum RestoreStep {
    Next(RestoreState),
    Ready(Restored),
    Failed(RestoreFailure),
}

/// The failure of a call that left `errno` behind.
pub open spec fn failed(reason: &'static str, errno: i32, close: OwnedFd) -> RestoreStep {
    RestoreStep::Failed(
        RestoreFailure { error: SocketCreateError { reason, err: OsError { code: errno } }, close },
    )
}

/// The step from a ring whose indices were read to the next one, or to the end.
pub open spec fn advanced(
    socket: Inherited,
    offsets: MmapOffsets,
    progress: Progress,
    ring: MappedRing,
) -> RestoreStep {
    match progress {
        Progress::Rx => RestoreStep::Next(
            RestoreState::Mapping { socket, offsets, progress: Progress::Tx { rx: ring } },
        ),
        Progress::Tx { rx } => RestoreStep::Next(
            RestoreState::Mapping { socket, offsets, progress: Progress::Fill { rx, tx: ring } },
        ),
        Progress::Fill { rx, tx } => RestoreStep::Next(
            RestoreState::Mapping {
                socket,
                offsets,
                progress: Progress::Completion { rx, tx, fr: ring },
            },
        ),
        Progress::Completion { rx, tx, fr } => RestoreStep::Ready(
            Restored { socket, offsets, rx, tx, fr, cr: ring },
        ),
    }
}

impl RestoreState {
    pub open spec fn wf(self) -> bool {
        match self {
            RestoreState::Locating { socket } => socket.valid(),
            RestoreState::Mapping { socket, offsets, progress } => socket.valid()
                && progress.sound(socket, offsets) && socket.ring_fits(
                offsets,
                progress.spec_kind(),
            ),
            RestoreState::Reading { socket, offsets, progress, base } => socket.valid()
                && progress.sound(socket, offsets) && socket.ring_fits(
                offsets,
                progress.spec_kind(),
            ) && offsets.spec_of(progress.spec_kind()).reachable_from(base),
        }
    }

    /// What follows from `reply` can be represented: the length of the ring that is mapped
    /// next, or the addresses in the ring that was mapped.
    pub open spec fn admits(self, reply: RestoreReply) -> bool {
        match (self, reply) {
            (
                RestoreState::Locating { socket },
                RestoreReply::Getsockopt { rc, offsets, errno },
            ) => rc == 0 ==> socket.ring_fits(offsets, RingKind::Rx),
            (
                RestoreState::Mapping { socket, offsets, progress },
                RestoreReply::Mmap { addr, errno },
            ) => spec_mmap_result(addr, errno) is Ok ==> offsets.spec_of(
                progress.spec_kind(),
            ).reachable_from(addr),
            (
                RestoreState::Reading { socket, offsets, progress, base },
                RestoreReply::ReadIndices { producer, consumer },
            ) => progress.spec_next_kind() matches Some(kind) ==> socket.ring_fits(offsets, kind),
            _ => true,
        }
    }

    /// Whether what follows from `reply` can be represented: the length of the ring that is
    /// mapped next, or the addresses in the ring that was mapped.
    pub fn accepts(&self, reply: &RestoreReply) -> (accepted: bool)
        ensures
            accepted == self.admits(*reply),
    {
        match (self, reply) {
            (RestoreState::Locating { socket }, RestoreReply::Getsockopt { rc, offsets, .. }) => {
                *rc != 0 || socket.check_ring_fits(offsets, RingKind::Rx)
            },
            (
                RestoreState::Mapping { offsets, progress, .. },
                RestoreReply::Mmap { addr, errno },
            ) => match mmap_result(*addr, *errno) {
                Ok(addr) => offsets.of(progress.kind()).is_reachable_from(addr),
                Err(_) => true,
            },
            (
                RestoreState::Reading { socket, offsets, progress, .. },
                RestoreReply::ReadIndices { .. },
            ) => match progress.next_kind() {
                Some(kind) => socket.check_ring_fits(offsets, kind),
                None => true,
            },
            _ => true,
        }
    }

    /// The call that this state waits for.
    pub open spec fn requests(self, call: RestoreCall) -> bool {
        match self {
            RestoreState::Locating { socket } => call == (RestoreCall::Getsockopt {
                fd: socket.fd.raw,
                level: SOL_XDP,
                option: XDP_MMAP_OFFSETS,
                len: XDP_MMAP_OFFSETS_SIZE,
            }),
            RestoreState::Mapping { socket, offsets, progress } => call matches RestoreCall::Mmap(
                request,
            ) && request.maps(
                socket.fd.raw,
                socket.spec_ring_len(offsets, progress.spec_kind()) as usize,
                progress.spec_kind().page_offset(),
            ),
            RestoreState::Reading { socket, offsets, progress, base } => {
                let off = offsets.spec_of(progress.spec_kind());
                call == (RestoreCall::ReadIndices {
                    producer: (base + off.producer) as usize,
                    consumer: (base + off.consumer) as usize,
                })
            },
        }
    }

    /// The step that `reply` takes from this state. A reply to another call than the
    /// awaited one is passed over.
    pub open spec fn after(self, reply: RestoreReply) -> RestoreStep {
        match (self, reply) {
            (
                RestoreState::Locating { socket },
                RestoreReply::Getsockopt { rc, offsets, errno },
            ) => if rc != 0 {
                failed("getsockopt(XDP_MMAP_OFFSETS) failed on inherited FD", errno, socket.fd)
            } else {
                RestoreStep::Next(
                    RestoreState::Mapping { socket, offsets, progress: Progress::Rx },
                )
            },
            (
                RestoreState::Mapping { socket, offsets, progress },
                RestoreReply::Mmap { addr, errno },
            ) => match spec_mmap_result(addr, errno) {
                Ok(base) => RestoreStep::Next(
                    RestoreState::Reading { socket, offsets, progress, base },
                ),
                Err(err) => failed("mmap of inherited ring failed", err.code, socket.fd),
            },
            (
                RestoreState::Reading { socket, offsets, progress, base },
                RestoreReply::ReadIndices { producer, consumer },
            ) => advanced(socket, offsets, progress, MappedRing { base, producer, consumer }),
            _ => RestoreStep::Next(self),
        }
    }

    /// The call to make next.
    pub fn request(&self) -> (call: RestoreCall)
        requires
            self.wf(),
        ensures
            self.requests(call),
    {
        match self {
            RestoreState::Locating { socket } => RestoreCall::Getsockopt {
                fd: socket.fd.as_raw_fd(),
                level: SOL_XDP,
                option: XDP_MMAP_OFFSETS,
                len: XDP_MMAP_OFFSETS_SIZE,
            },
            RestoreState::Mapping { socket, offsets, progress } => {
                let kind = progress.kind();
                let page_offset: libc::off_t = match kind {
                    RingKind::Rx => XDP_PGOFF_RX_RING,
                    RingKind::Tx => XDP_PGOFF_TX_RING,
                    RingKind::Fill => XDP_UMEM_PGOFF_FILL_RING,
                    RingKind::Completion => XDP_UMEM_PGOFF_COMPLETION_RING,
                };
                let len: usize = socket.ring_len(offsets, kind);
                RestoreCall::Mmap(MmapRequest::shared(&socket.fd, len, page_offset))
            },
            RestoreState::Reading { offsets, progress, base, .. } => {
                let off = offsets.of(progress.kind());
                RestoreCall::ReadIndices {
                    producer: off.producer_addr(*base),
                    consumer: off.consumer_addr(*base),
                }
            },
        }
    }

    /// Takes the reply to the awaited call.
    pub fn step(self, reply: RestoreReply) -> (step: RestoreStep)
        requires
            self.wf(),
            self.admits(reply),
        ensures
            step == self.after(reply),
            step matches RestoreStep::Next(state) ==> state.wf(),
            step matches RestoreStep::Ready(restored) ==> restored.wf(),
    {
        match (self, reply) {
            (
                RestoreState::Locating { socket },
                RestoreReply::Getsockopt { rc, offsets, errno },
            ) => {
                if rc != 0 {
                    RestoreStep::Failed(
                        RestoreFailure {
                            error: SocketCreateError {
                                reason: "getsockopt(XDP_MMAP_OFFSETS) failed on inherited FD",
                                err: OsError::from_raw_os_error(errno),
                            },
                            close: socket.fd,
                        },
                    )
                } else {
                    RestoreStep::Next(
                        RestoreState::Mapping { socket, offsets, progress: Progress::Rx },
                    )
                }
            },
            (
                RestoreState::Mapping { socket, offsets, progress },
                RestoreReply::Mmap { addr, errno },
            ) => {
                match mmap_result(addr, errno) {
                    Ok(base) => RestoreStep::Next(
                        RestoreState::Reading { socket, offsets, progress, base },
                    ),
                    Err(err) => RestoreStep::Failed(
                        RestoreFailure {
                            error: SocketCreateError {
                                reason: "mmap of inherited ring failed",
                                err,
                            },
                            close: socket.fd,
                        },
                    ),
                }
            },
            (
                RestoreState::Reading { socket, offsets, progress, base },
                RestoreReply::ReadIndices { producer, consumer },
            ) => {
                let ring = MappedRing { base, producer, consumer };
                let progress = match progress {
                    Progress::Rx => Progress::Tx { rx: ring },
                    Progress::Tx { rx } => Progress::Fill { rx, tx: ring },
                    Progress::Fill { rx, tx } => Progress::Completion { rx, tx, fr: ring },
                    Progress::Completion { rx, tx, fr } => {
                        return RestoreStep::Ready(
                            Restored { socket, offsets, rx, tx, fr, cr: ring },
                        );
                    },
                };
                RestoreStep::Next(RestoreState::Mapping { socket, offsets, progress })
            },
            (state, _) => RestoreStep::Next(state),
        }
    }
}

impl Socket {
    /// Starts to rebuild a socket from an inherited descriptor.
    ///
    /// The UMEM comes in at the end, in [`Restored::finish`]. `config` has the ring sizes that the predecessor created the socket with: the
    /// kernel keeps those, and with others the rings would miscount their entries.
    pub fn from_inherited_fd(config: SocketConfig, fd: OwnedFd) -> (state: RestoreState)
        requires
            config.rx_queue_size >= 1,
            config.tx_queue_size >= 1,
        ensures
            state == (RestoreState::Locating {
                socket: Inherited {
                    fd,
                    rx_size: config.rx_queue_size,
                    tx_size: config.tx_queue_size,
                },
            }),
            state.wf(),
    {
        RestoreState::Locating {
            socket: Inherited {
                fd,
                rx_size: config.rx_queue_size,
                tx_size: config.tx_queue_size,
            },
        }
    }
}

impl Restored {
    pub open spec fn wf(self) -> bool {
        &&& self.socket.valid()
        &&& self.rx.sound(self.socket, self.offsets, RingKind::Rx)
        &&& self.tx.sound(self.socket, self.offsets, RingKind::Tx)
        &&& self.fr.sound(self.socket, self.offsets, RingKind::Fill)
        &&& self.cr.sound(self.socket, self.offsets, RingKind::Completion)
    }

    pub open spec fn spec_ring(self, kind: RingKind) -> MappedRing {
        match kind {
            RingKind::Rx => self.rx,
            RingKind::Tx => self.tx,
            RingKind::Fill => self.fr,
            RingKind::Completion => self.cr,
        }
    }

    /// The region that a ring was mapped into.
    pub open spec fn region(self, kind: RingKind) -> RawMmap {
        self.socket.region(self.offsets, kind, self.spec_ring(kind).base)
    }

    /// The rings as this process describes them.
    pub open spec fn tx_ring(self) -> XskRingProd {
        ring_prod(
            self.tx.base,
            self.offsets.tx,
            self.socket.tx_size,
            self.tx.producer,
            self.tx.consumer,
        )
    }

    pub open spec fn rx_ring(self) -> XskRingCons {
        ring_cons(
            self.rx.base,
            self.offsets.rx,
            self.socket.rx_size,
            self.rx.producer,
            self.rx.consumer,
        )
    }

    pub open spec fn fill_ring(self) -> XskRingProd {
        ring_prod(
            self.fr.base,
            self.offsets.fr,
            XSK_RING_PROD_DEFAULT_NUM_DESCS,
            self.fr.producer,
            self.fr.consumer,
        )
    }

    pub open spec fn comp_ring(self) -> XskRingCons {
        ring_cons(
            self.cr.base,
            self.offsets.cr,
            XSK_RING_CONS_DEFAULT_NUM_DESCS,
            self.cr.producer,
            self.cr.consumer,
        )
    }

    /// What a rebuilt socket comes to on a UMEM: all four queues. The TX and RX queues
    /// share one socket, which owns the descriptor and the RX and TX regions and holds
    /// the UMEM. The fill and completion queues hold the UMEM.
    pub open spec fn yields(
        self,
        umem: Umem,
        queues: (TxQueue, RxQueue, Option<(FillQueue, CompQueue)>),
    ) -> bool {
        let (tx_q, rx_q, fq_and_cq) = queues;
        &&& tx_q.ring == self.tx_ring()
        &&& rx_q.ring == self.rx_ring()
        &&& tx_q.socket == rx_q.socket
        &&& tx_q.socket.fd.raw == self.socket.fd.raw
        &&& tx_q.socket.inner.owner == SocketOwner::Inherited(self.socket.fd)
        &&& tx_q.socket.inner.umem == umem
        &&& tx_q.socket.inner.rx_tx_mmaps@ == seq![
            self.region(RingKind::Rx),
            self.region(RingKind::Tx),
        ]
        &&& fq_and_cq == Some(
            (
                FillQueue { ring: self.fill_ring(), umem },
                CompQueue { ring: self.comp_ring(), umem },
            ),
        )
    }

    /// What becomes of the UMEM: it is handed the fill and completion regions.
    pub open spec fn hands_over(self, before: UmemInner, after: UmemInner) -> bool {
        &&& after.umem == before.umem
        &&& after.saved_fq_and_cq == before.saved_fq_and_cq
        &&& after.restored_fc@ == before.restored_fc@.push(self.region(RingKind::Fill)).push(
            self.region(RingKind::Completion),
        )
    }

    /// The queues over the mapped rings, on the UMEM that was rebuilt on the memfd that
    /// the predecessor registered. The RX and TX regions go to the socket, the fill and
    /// completion regions to the UMEM, whose handle the queues hold.
    pub fn finish(self, umem: &mut UmemInner) -> (queues: (
        TxQueue,
        RxQueue,
        Option<(FillQueue, CompQueue)>,
    ))
        requires
            self.wf(),
        ensures
            self.yields(final(umem).umem, queues),
            self.hands_over(*old(umem), *final(umem)),
    {
        let Restored { socket, offsets, rx, tx, fr, cr } = self;
        let rx_len: usize = socket.ring_len(&offsets, RingKind::Rx);
        let tx_len: usize = socket.ring_len(&offsets, RingKind::Tx);
        let fr_len: usize = socket.ring_len(&offsets, RingKind::Fill);
        let cr_len: usize = socket.ring_len(&offsets, RingKind::Completion);

        let rx_ring = build_ring_cons(
            rx.base,
            &offsets.rx,
            socket.rx_size,
            rx.producer,
            rx.consumer,
        );
        let tx_ring = build_ring_prod(
            tx.base,
            &offsets.tx,
            socket.tx_size,
            tx.producer,
            tx.consumer,
        );
        let fr_ring = build_ring_prod(
            fr.base,
            &offsets.fr,
            XSK_RING_PROD_DEFAULT_NUM_DESCS,
            fr.producer,
            fr.consumer,
        );
        let cr_ring = build_ring_cons(
            cr.base,
            &offsets.cr,
            XSK_RING_CONS_DEFAULT_NUM_DESCS,
            cr.producer,
            cr.consumer,
        );

        umem.attach_restored_fc(fr.base, fr_len);
        umem.attach_restored_fc(cr.base, cr_len);

        let fd = Fd::new(socket.fd.as_raw_fd());
        let fq = FillQueue { ring: fr_ring, umem: umem.umem.clone() };
        let cq = CompQueue { ring: cr_ring, umem: umem.umem.clone() };
        let mut inner = SocketInner::new_inherited(socket.fd, umem.umem.clone());
        inner.attach_rx_tx_mmaps(rx.base, rx_len, tx.base, tx_len);
        assert(inner.rx_tx_mmaps@ =~= seq![
            self.region(RingKind::Rx),
            self.region(RingKind::Tx),
        ]);
        let socket = Socket { fd, inner: Arc::new(inner) };
        let tx_q = TxQueue { ring: tx_ring, socket: socket.clone() };
        let rx_q = RxQueue { ring: rx_ring, socket };
        (tx_q, rx_q, Some((fq, cq)))
    }
}

} // verus!
