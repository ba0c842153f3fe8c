//! Laws of what sockets, queues and the UMEM share.

use vstd::prelude::*;

use crate::error::SocketCreateError;
use crate::os::{OwnedFd, RawMmap, Release};
use crate::restore::{Restored, RingKind};
use crate::ring::RingOffset;
use crate::socket::{
    CompQueue, CreateReply, CreatedSocket, FillQueue, RxQueue, SocketCreation, SocketInner, SocketOwner, TxQueue,
    XskSocket,
};
use crate::umem::{Umem, UmemConfig, UmemInner};

verus! {

/// A socket is given up before its hold on the UMEM, and that before its ring regions
/// are unmapped, each of them once.
pub proof fn law_socket_is_given_up_in_order(inner: SocketInner)
    ensures
        inner.release_steps().len() == 2 + inner.rx_tx_mmaps@.len(),
        inner.release_steps()[0] == inner.owner.release_step(),
        match inner.owner {
            SocketOwner::Libxdp(socket) => inner.release_steps()[0] == (Release::DeleteSocket {
                ptr: socket.ptr,
            }),
            SocketOwner::Inherited(fd) => inner.release_steps()[0] == (Release::CloseFd {
                fd: fd.raw,
            }),
        },
        inner.release_steps()[1] == Release::DropUmem,
        forall|i: int|
            0 <= i < inner.rx_tx_mmaps@.len() ==> #[trigger] inner.release_steps()[2 + i] == (
            Release::Unmap { region: inner.rx_tx_mmaps@[i] }),
{
}

/// A socket created via libxdp is given up through libxdp alone: its descriptor is not
/// closed and its rings are not unmapped a second time.
pub proof fn law_libxdp_socket_is_deleted_once(inner: SocketInner, socket: XskSocket)
    requires
        inner.owner == SocketOwner::Libxdp(socket),
        inner.rx_tx_mmaps@ == Seq::<RawMmap>::empty(),
    ensures
        inner.release_steps() == seq![
            Release::DeleteSocket { ptr: socket.ptr },
            Release::DropUmem,
        ],
{
}

/// A rebuilt socket is given up without libxdp: its descriptor is closed, and then its
/// two regions are unmapped.
pub proof fn law_inherited_socket_is_closed_once(
    inner: SocketInner,
    fd: OwnedFd,
    rx: RawMmap,
    tx: RawMmap,
)
    requires
        inner.owner == SocketOwner::Inherited(fd),
        inner.rx_tx_mmaps@ == seq![rx, tx],
    ensures
        inner.release_steps() == seq![
            Release::CloseFd { fd: fd.raw },
            Release::DropUmem,
            Release::Unmap { region: rx },
            Release::Unmap { region: tx },
        ],
{
}

/// The rings that came with a UMEM are offered to one socket. Every later one is
/// offered rings that are null.
pub proof fn law_queues_are_offered_once(inner: UmemInner)
    requires
        inner.saved_fq_and_cq is None,
    ensures
        inner.offered_queues().0.ring == 0,
        inner.offered_queues().1.ring == 0,
        inner.offered_queues().0.size == 0,
        inner.offered_queues().1.size == 0,
{
}

/// The first socket on a UMEM is offered the very rings that came with it.
pub proof fn law_first_socket_is_offered_the_saved_queues(inner: UmemInner)
    ensures
        inner.saved_fq_and_cq matches Some((fq, cq)) ==> inner.offered_queues().0 == fq
            && inner.offered_queues().1 == cq,
{
}

/// Every region that a UMEM was handed is unmapped once when the UMEM is given up, at its
/// own address and over its whole length, and nothing else is given back.
pub proof fn law_umem_unmaps_each_region_once(inner: UmemInner)
    ensures
        inner.release_steps().len() == inner.restored_fc@.len(),
        forall|i: int|
            0 <= i < inner.restored_fc@.len() ==> (
            #[trigger] inner.release_steps()[i] matches Release::Unmap { region } && region
                == inner.restored_fc@[i]),
{
}

/// Where a socket was created, its queues hold what libxdp replied: the TX and RX queues the
/// rings that the reply carries, with all of their fields, over one socket that libxdp
/// deletes, and the fill and completion queues the reply's rings unless those are null.
pub proof fn law_created_queues_hold_the_reply(
    creation: SocketCreation,
    reply: CreateReply,
    fd: i32,
    queues: (TxQueue, RxQueue, Option<(FillQueue, CompQueue)>),
)
    requires
        creation.socket_from(reply).yields(fd, queues),
    ensures
        queues.0.ring == reply.tx_q,
        queues.0.ring.producer == reply.tx_q.producer,
        queues.0.ring.consumer == reply.tx_q.consumer,
        queues.1.ring == reply.rx_q,
        queues.1.ring.producer == reply.rx_q.producer,
        queues.1.ring.consumer == reply.rx_q.consumer,
        queues.0.socket == queues.1.socket,
        queues.0.socket.fd.raw == fd,
        queues.0.socket.inner.owner matches SocketOwner::Libxdp(socket) && socket.ptr
            == reply.socket,
        queues.0.socket.inner.umem == creation.umem,
        queues.0.socket.inner.rx_tx_mmaps@.len() == 0,
        queues.2 is Some <==> reply.fq.ring != 0,
        queues.2 matches Some((fq, cq)) ==> {
            &&& fq.ring == reply.fq
            &&& cq.ring == reply.cq
            &&& fq.umem == creation.umem
            &&& cq.umem == creation.umem
        },
{
}

/// What `xsk_socket__create_shared` left in its arguments is kept as it is until the
/// descriptor is there.
pub proof fn law_created_socket_keeps_the_reply(creation: SocketCreation, reply: CreateReply)
    ensures
        ({
            let created = creation.socket_from(reply);
            &&& created.umem == creation.umem
            &&& created.socket.ptr == reply.socket
            &&& created.rx_q == reply.rx_q
            &&& created.tx_q == reply.tx_q
            &&& created.fq == reply.fq
            &&& created.cq == reply.cq
        }),
{
}

/// A created socket is refused exactly where it has no descriptor, no TX ring or no RX ring,
/// or only one of the fill and completion rings. The first of these in this order is the
/// reason. Only a missing descriptor comes with an error code, the one that libxdp returned,
/// negated.
pub proof fn law_first_defect_decides(created: CreatedSocket, fd: i32)
    ensures
        created.defect(fd) is None <==> fd >= 0 && created.tx_q.ring != 0 && created.rx_q.ring != 0
            && (created.fq.ring == 0 <==> created.cq.ring == 0),
        fd < 0 ==> (created.defect(fd) matches Some((reason, code)) && reason
            == "failed to retrieve AF_XDP socket file descriptor"@ && code == -fd),
        fd >= 0 ==> (created.defect(fd) matches Some((reason, code)) ==> code == 0),
        fd >= 0 && created.tx_q.ring == 0 ==> (created.defect(fd) matches Some((reason, code))
            && reason == "returned tx queue ring is null"@),
        fd >= 0 && created.tx_q.ring != 0 && created.rx_q.ring == 0 ==> (created.defect(
            fd,
        ) matches Some((reason, code)) && reason == "returned rx queue ring is null"@),
        fd >= 0 && created.tx_q.ring != 0 && created.rx_q.ring != 0 ==> (created.defect(
            fd,
        ) matches Some((reason, code)) ==> reason
            == "fill queue xor comp queue ring is null, either both or neither should be non-null"@),
{
}

/// An error that says a reason and a code has both.
pub proof fn law_error_has_reason_and_code(error: SocketCreateError, reason: Seq<char>, code: int)
    ensures
        error.says(reason, code) <==> error.reason@ == reason && error.err.code == code,
{
}

/// The reply stands for a socket that was created, with a descriptor and with TX and RX
/// rings.
pub open spec fn usable(reply: CreateReply, fd: i32) -> bool {
    &&& reply.err == 0
    &&& reply.socket != 0
    &&& reply.tx_q.ring != 0
    &&& reply.rx_q.ring != 0
    &&& fd >= 0
}

/// The first socket on a UMEM comes with fill and completion queues over the rings that
/// came with the UMEM, where libxdp leaves those in place.
pub proof fn law_unshared_umem_yields_queues(
    umem: UmemInner,
    creation: SocketCreation,
    reply: CreateReply,
    fd: i32,
    queues: (TxQueue, RxQueue, Option<(FillQueue, CompQueue)>),
)
    requires
        umem.saved_fq_and_cq matches Some(saved) && saved.0.ring != 0 && saved.1.ring != 0,
        (reply.fq, reply.cq) == umem.offered_queues(),
        usable(reply, fd),
        creation.socket_from(reply).yields(fd, queues),
    ensures
        creation.socket_from(reply).defect(fd) is None,
        queues.2 matches Some((fq, cq)) && (fq.ring, cq.ring) == umem.saved_fq_and_cq.unwrap()
            && fq.umem == creation.umem && cq.umem == creation.umem,
{
}

/// A later socket on a shared UMEM comes with fill and completion queues of its own where
/// its pair of interface and queue was not bound: libxdp then fills both of the null rings
/// that it was offered.
pub proof fn law_unbound_pair_yields_queues(
    umem: UmemInner,
    creation: SocketCreation,
    reply: CreateReply,
    fd: i32,
    queues: (TxQueue, RxQueue, Option<(FillQueue, CompQueue)>),
)
    requires
        umem.saved_fq_and_cq is None,
        reply.fq.ring != umem.offered_queues().0.ring,
        reply.cq.ring != umem.offered_queues().1.ring,
        usable(reply, fd),
        creation.socket_from(reply).yields(fd, queues),
    ensures
        creation.socket_from(reply).defect(fd) is None,
        queues.2 matches Some((fq, cq)) && fq.ring == reply.fq && cq.ring == reply.cq && fq.umem
            == creation.umem && cq.umem == creation.umem,
{
}

/// A later socket on a shared UMEM comes without fill and completion queues where its pair
/// of interface and queue was bound: libxdp then leaves the null rings that it was offered,
/// and the queues that came with the first socket on the pair stay the only ones.
pub proof fn law_bound_pair_yields_no_queues(
    umem: UmemInner,
    creation: SocketCreation,
    reply: CreateReply,
    fd: i32,
    queues: (TxQueue, RxQueue, Option<(FillQueue, CompQueue)>),
)
    requires
        umem.saved_fq_and_cq is None,
        (reply.fq, reply.cq) == umem.offered_queues(),
        usable(reply, fd),
        creation.socket_from(reply).yields(fd, queues),
    ensures
        creation.socket_from(reply).defect(fd) is None,
        queues.2 is None,
{
}

/// The `len` bytes at `addr` lie in the region.
pub open spec fn within(region: RawMmap, addr: int, len: int) -> bool {
    region.addr <= addr && addr + len <= region.addr + region.len
}

/// The descriptors of a ring lie in its region, and so do those of its indices and flags
/// that the kernel put there.
pub open spec fn ring_within(
    region: RawMmap,
    off: RingOffset,
    ring: usize,
    descs_len: int,
    producer: usize,
    consumer: usize,
    flags: usize,
) -> bool {
    &&& within(region, ring as int, descs_len)
    &&& off.producer + 4 <= region.len ==> within(region, producer as int, 4)
    &&& off.consumer + 4 <= region.len ==> within(region, consumer as int, 4)
    &&& off.flags + 4 <= region.len ==> within(region, flags as int, 4)
}

/// The fill and completion rings of a rebuilt socket lie in regions that the UMEM unmaps,
/// each in one step, when it is given up.
pub proof fn law_umem_keeps_the_rings_of_its_queues(
    restored: Restored,
    before: UmemInner,
    after: UmemInner,
    queues: (TxQueue, RxQueue, Option<(FillQueue, CompQueue)>),
)
    requires
        restored.wf(),
        restored.hands_over(before, after),
        restored.yields(after.umem, queues),
    ensures
        queues.2 matches Some((fq, cq)) && {
            let fr = restored.region(RingKind::Fill);
            let cr = restored.region(RingKind::Completion);
            let n = before.restored_fc@.len() as int;
            &&& after.release_steps() == before.release_steps() + seq![
                Release::Unmap { region: fr },
                Release::Unmap { region: cr },
            ]
            &&& after.release_steps()[n] == (Release::Unmap { region: fr })
            &&& after.release_steps()[n + 1] == (Release::Unmap { region: cr })
            &&& ring_within(
                fr,
                restored.offsets.fr,
                fq.ring.ring,
                8 * fq.ring.size,
                fq.ring.producer,
                fq.ring.consumer,
                fq.ring.flags,
            )
            &&& ring_within(
                cr,
                restored.offsets.cr,
                cq.ring.ring,
                8 * cq.ring.size,
                cq.ring.producer,
                cq.ring.consumer,
                cq.ring.flags,
            )
        },
{
    assert(after.release_steps() =~= before.release_steps() + seq![
        Release::Unmap { region: restored.region(RingKind::Fill) },
        Release::Unmap { region: restored.region(RingKind::Completion) },
    ]);
}

/// No handle of this UMEM is left among the live ones. Only then is it given up.
pub open spec fn last_handle_gone(umem: UmemInner, live: Set<Umem>) -> bool {
    !live.contains(umem.umem)
}

/// While a fill or completion queue of a rebuilt socket is alive, its ring stays mapped:
/// the queue holds a handle of the UMEM that keeps the region, so that the UMEM is not
/// given up, and giving up the socket does not unmap the region, which is not one of the
/// socket's own.
pub proof fn law_rings_outlive_the_socket(
    restored: Restored,
    before: UmemInner,
    after: UmemInner,
    queues: (TxQueue, RxQueue, Option<(FillQueue, CompQueue)>),
    live: Set<Umem>,
    kind: RingKind,
)
    requires
        restored.hands_over(before, after),
        restored.yields(after.umem, queues),
        kind == RingKind::Fill || kind == RingKind::Completion,
        restored.region(kind) != restored.region(RingKind::Rx),
        restored.region(kind) != restored.region(RingKind::Tx),
    ensures
        queues.2 matches Some((fq, cq)) && (live.contains(fq.umem) || live.contains(cq.umem)
            ==> !last_handle_gone(after, live)),
        after.release_steps().contains(Release::Unmap { region: restored.region(kind) }),
        !queues.0.socket.inner.release_steps().contains(
            Release::Unmap { region: restored.region(kind) },
        ),
{
    let n = before.restored_fc@.len() as int;
    if kind == RingKind::Fill {
        assert(after.release_steps()[n] == (Release::Unmap { region: restored.region(kind) }));
    } else {
        assert(after.release_steps()[n + 1] == (Release::Unmap { region: restored.region(kind) }));
    }
    let inner = *queues.0.socket.inner;
    law_inherited_socket_is_closed_once(
        inner,
        restored.socket.fd,
        restored.region(RingKind::Rx),
        restored.region(RingKind::Tx),
    );
}

/// A region that a UMEM was handed stays its own, in its place, whatever sockets are
/// rebuilt on the UMEM later.
pub proof fn law_umem_never_drops_a_region(
    restored: Restored,
    before: UmemInner,
    after: UmemInner,
    i: int,
)
    requires
        restored.hands_over(before, after),
        0 <= i < before.release_steps().len(),
    ensures
        after.release_steps()[i] == before.release_steps()[i],
{
}

/// The data of every frame starts in the frame's own part of the UMEM, after the
/// headroom, and the parts lie one after the other up to the end of the UMEM.
pub proof fn law_frames_lie_in_the_umem(config: UmemConfig, frame_count: u32, i: int)
    requires
        config.valid(),
        0 <= i < frame_count,
    ensures
        i * config.frame_size <= config.data_addr(i) < (i + 1) * config.frame_size,
        (i + 1) * config.frame_size <= config.umem_len(frame_count),
{
    assert((i + 1) * config.frame_size == i * config.frame_size + config.frame_size)
        by (nonlinear_arith);
    assert((i + 1) * config.frame_size <= config.frame_size * frame_count) by (nonlinear_arith)
        requires
            i + 1 <= frame_count,
    ;
}

/// No two frames overlap: the data of a frame starts where the part of every earlier
/// frame has ended.
pub proof fn law_frames_are_disjoint(config: UmemConfig, i: int, j: int)
    requires
        0 <= i < j,
    ensures
        (i + 1) * config.frame_size <= j * config.frame_size <= config.data_addr(j),
{
    assert((i + 1) * config.frame_size <= j * config.frame_size) by (nonlinear_arith)
        requires
            i + 1 <= j,
    ;
}

/// For every layout and every frame, the distance from where the frame starts to where its
/// data starts is the room for XDP programs and the room for the user, and nothing else.
pub proof fn law_headroom_precedes_the_data(config: UmemConfig, i: int)
    ensures
        config.data_addr(i) - i * config.frame_size == config.xdp_headroom + config.frame_headroom,
{
}

/// The data of one frame starts one frame size after the data of the frame before it.
pub proof fn law_frames_are_evenly_spaced(config: UmemConfig, i: int)
    ensures
        config.data_addr(i + 1) - config.data_addr(i) == config.frame_size,
{
    assert((i + 1) * config.frame_size == i * config.frame_size + config.frame_size)
        by (nonlinear_arith);
}

/// Headroom moves the data of every frame by as much as it grows.
pub proof fn law_headroom_moves_the_data(a: UmemConfig, b: UmemConfig, i: int)
    requires
        a.frame_size == b.frame_size,
    ensures
        b.data_addr(i) - a.data_addr(i) == (b.xdp_headroom - a.xdp_headroom) + (b.frame_headroom
            - a.frame_headroom),
{
}

/// A UMEM without frames takes no bytes, and every frame adds its size.
pub proof fn law_each_frame_adds_its_size(config: UmemConfig, frame_count: u32)
    ensures
        config.umem_len(0) == 0,
        frame_count < u32::MAX ==> config.umem_len((frame_count + 1) as u32) - config.umem_len(
            frame_count,
        ) == config.frame_size,
{
    if frame_count < u32::MAX {
        assert(config.frame_size * (frame_count + 1) == config.frame_size * frame_count
            + config.frame_size) by (nonlinear_arith);
    }
}

/// A layout can be addressed exactly where the data of the frame after the last one would
/// have an address.
pub proof fn law_addressable_layout_has_addresses(config: UmemConfig, frame_count: u32)
    ensures
        config.addressable(frame_count) <==> frame_count * config.frame_size + config.xdp_headroom
            + config.frame_headroom <= usize::MAX,
{
    assert(frame_count * config.frame_size == config.frame_size * frame_count)
        by (nonlinear_arith);
}

/// Headroom is valid exactly where it leaves room for data in a frame.
pub proof fn law_valid_layout_leaves_room(config: UmemConfig)
    ensures
        config.valid() <==> config.xdp_headroom + config.frame_headroom < config.frame_size,
{
}

} // verus!
