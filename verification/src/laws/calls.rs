//! Laws of single calls, and of calls that follow one another: what comes back has to do
//! with what was handed in.

use vstd::prelude::*;

use crate::error::SocketCreateError;
use crate::laws::messages::value;
use crate::mmap::{Mmap, MmapCall, MmapReply, MmapState, MmapStep};
use crate::os::{mmap_result, MmapRequest, OsError, OwnedFd, RawMmap, Release};
use crate::restore::{
    MappedRing, Progress, RestoreCall, RestoreReply, RestoreState, RestoreStep, Restored,
    RingKind,
};
use crate::ring::{
    build_ring_cons, build_ring_prod, MmapOffsets, RingOffset, XskRingCons, XskRingProd,
};
use crate::socket::{
    CompQueue, CreateFailure, CreateReply, CreateRequest, CreatedSocket, FillQueue, RxQueue, Socket,
    SocketConfig, SocketCreation, SocketInner, SocketOwner, TxQueue, XskSocket, XskmapUpdate,
};
use crate::umem::{FrameDesc, Umem, UmemConfig, UmemInner};

verus! {

/// A descriptor keeps its number, and an error its code.
pub proof fn law_numbers_are_kept(
    number: i32,
    fd: OwnedFd,
    raw: i32,
    err: OsError,
    code: Option<i32>,
)
    requires
        call_ensures(OwnedFd::new, (number,), fd),
        call_ensures(OwnedFd::as_raw_fd, (&fd,), raw),
        call_ensures(OsError::from_raw_os_error, (number,), err),
        call_ensures(OsError::raw_os_error, (&err,), code),
    ensures
        raw == number,
        code == Some(number),
{
}

/// An error shows its reason, and the error behind it has its code.
pub proof fn law_error_shows_its_reason(
    error: SocketCreateError,
    text: String,
    source: Option<&OsError>,
)
    requires
        call_ensures(SocketCreateError::to_string, (&error,), text),
        call_ensures(SocketCreateError::source, (&error,), source),
    ensures
        text@ == error.reason@,
        source matches Some(err) && err.code == error.err.code,
{
}

/// A call to `mmap` failed exactly where it returned the highest address; the error is then
/// the one that it left behind. Any other address is where the region lies.
pub proof fn law_mmap_fails_with_the_highest_address(
    addr: usize,
    errno: i32,
    result: Result<usize, OsError>,
)
    requires
        call_ensures(mmap_result, (addr, errno), result),
    ensures
        match result {
            Ok(mapped) => mapped == addr && addr < usize::MAX,
            Err(err) => addr == usize::MAX && err.code == errno,
        },
{
}

/// A request maps what it was made for.
pub proof fn law_shared_request_maps_its_file(
    fd: OwnedFd,
    len: usize,
    offset: libc::off_t,
    request: MmapRequest,
)
    requires
        call_ensures(MmapRequest::shared, (&fd, len, offset), request),
    ensures
        request.fd == fd.raw,
        request.len == len,
        request.offset == offset,
        request.prot == 0x1 + 0x2,
        request.flags == 0x1 + 0x8000 || request.flags == 0x1 + 0x1_0000,
{
}

/// A new memfd is asked for first, under its name, closed on `exec`, and on huge pages where
/// those are wanted. An existing one is inspected first.
pub proof fn law_mapping_starts_at_its_first_call(
    len: usize,
    use_huge_pages: bool,
    fd: OwnedFd,
    created: MmapState,
    adopted: MmapState,
    first: MmapCall,
    inspection: MmapCall,
)
    requires
        call_ensures(Mmap::new, (len, use_huge_pages), created),
        call_ensures(MmapState::request, (&created,), first),
        call_ensures(Mmap::from_fd, (fd, len), adopted),
        call_ensures(MmapState::request, (&adopted,), inspection),
    ensures
        first matches MmapCall::MemfdCreate { name, flags } && name@ == "xsk-rs-umem"@ && flags
            == (if use_huge_pages {
            0x1u32 + 0x4u32
        } else {
            0x1
        }),
        inspection == (MmapCall::Fstat { fd: fd.raw }),
{
}

/// A new memfd that was created as `raw_fd` is given the wanted length as its size, and
/// where that succeeds, or where it is on huge pages and is not given a size, the wanted
/// length of it is mapped.
pub proof fn law_new_memfd_is_mapped_at_the_size_it_was_given(
    len: usize,
    use_huge_pages: bool,
    raw_fd: i32,
    errno: i32,
    start: MmapState,
    second: MmapState,
    sizing: MmapCall,
    third: MmapStep,
)
    requires
        raw_fd >= 0,
        call_ensures(Mmap::new, (len, use_huge_pages), start),
        call_ensures(
            MmapState::step,
            (start, MmapReply::MemfdCreate { raw_fd, errno }),
            MmapStep::Next(second),
        ),
        call_ensures(MmapState::request, (&second,), sizing),
        call_ensures(MmapState::step, (second, MmapReply::Ftruncate { rc: 0, errno }), third),
    ensures
        !use_huge_pages ==> (sizing matches MmapCall::Ftruncate { fd, len: size } && fd == raw_fd
            && (len <= 0x7fff_ffff_ffff_ffff ==> size as int == len as int)),
        use_huge_pages ==> (sizing matches MmapCall::Mmap(request) && request.fd == raw_fd
            && request.len == len),
        third matches MmapStep::Next(state) && forall|mapping: MmapCall| #[trigger]
            call_ensures(MmapState::request, (&state,), mapping) ==> (
            mapping matches MmapCall::Mmap(request) && request.fd == raw_fd && request.len == len
                && request.offset == 0),
{
}

/// An existing memfd is mapped right after its inspection exactly where its size is at least
/// the wanted length. A shorter one is mapped only on the file system of huge pages, and is
/// refused as an invalid argument otherwise.
pub proof fn law_existing_memfd_is_mapped_only_where_long_enough(
    fd: OwnedFd,
    len: usize,
    size: libc::off_t,
    f_type: u32,
    errno: i32,
    start: MmapState,
    inspected: MmapState,
    identified: MmapStep,
)
    requires
        call_ensures(Mmap::from_fd, (fd, len), start),
        call_ensures(
            MmapState::step,
            (start, MmapReply::Fstat { rc: 0, size, errno }),
            MmapStep::Next(inspected),
        ),
        call_ensures(
            MmapState::step,
            (inspected, MmapReply::Fstatfs { rc: 0, f_type, errno }),
            identified,
        ),
    ensures
        inspected is Mapping <==> size as int >= len as int,
        size as int >= len as int ==> identified == MmapStep::Next(inspected),
        size < len && f_type == 0x9584_58f6 ==> identified == MmapStep::Next(
            MmapState::Mapping { fd, len },
        ),
        size < len && f_type != 0x9584_58f6 ==> (identified matches MmapStep::Failed(failure)
            && failure.err.code == 22 && failure.close == Some(fd)),
{
}

/// A mapped memfd lies where the kernel mapped it, over the wanted length, and is given up
/// by unmapping just that and closing the memfd.
pub proof fn law_mapped_memfd_is_given_up_as_it_was_mapped(
    fd: OwnedFd,
    len: usize,
    addr: usize,
    errno: i32,
    mmap: Mmap,
    start: usize,
    raw: i32,
    steps: Vec<Release>,
)
    requires
        call_ensures(
            MmapState::step,
            (MmapState::Mapping { fd, len }, MmapReply::Mmap { addr, errno }),
            MmapStep::Ready(mmap),
        ),
        call_ensures(Mmap::addr, (&mmap,), start),
        call_ensures(Mmap::as_raw_fd, (&mmap,), raw),
        call_ensures(Mmap::release, (&mmap,), steps),
    ensures
        start == addr,
        raw == fd.raw,
        steps@ == seq![
            Release::Unmap { region: RawMmap { addr, len } },
            Release::CloseFd { fd: fd.raw },
        ],
{
}

/// A UMEM is rebuilt on as much of its memfd as its frames take.
pub proof fn law_from_memfd_maps_every_frame(
    config: UmemConfig,
    frame_count: u32,
    memfd: OwnedFd,
    state: MmapState,
)
    requires
        config.frame_size * frame_count <= usize::MAX,
        call_ensures(Umem::from_memfd, (config, frame_count, memfd), state),
    ensures
        state matches MmapState::Inspecting { fd, len } && fd == memfd && len == config.frame_size
            * frame_count,
{
}

/// The frames of a UMEM are described in order. In each of them the data starts behind the
/// headroom for XDP programs and the headroom for the user, and no byte of it is in use.
pub proof fn law_from_mmap_describes_every_frame(
    config: UmemConfig,
    frame_count: u32,
    mem: Mmap,
    umem: (Umem, Vec<FrameDesc>),
    i: int,
)
    requires
        call_ensures(Umem::from_mmap, (config, frame_count, mem), umem),
        0 <= i < frame_count,
    ensures
        *umem.0.mem == mem,
        umem.1@.len() == frame_count,
        umem.1@[i].addr - i * config.frame_size == config.xdp_headroom + config.frame_headroom,
        umem.1@[i].lengths.headroom == 0,
        umem.1@[i].lengths.data == 0,
{
}

/// A clone of a handle is the handle.
pub proof fn law_clones_share(umem: Umem, umem_clone: Umem, socket: Socket, socket_clone: Socket)
    requires
        call_ensures(Umem::clone, (&umem,), umem_clone),
        call_ensures(Socket::clone, (&socket,), socket_clone),
    ensures
        umem_clone == umem,
        socket_clone == socket,
{
}

/// The rings of a UMEM are taken once: by the first taker. Every later one gets null rings.
pub proof fn law_saved_queues_are_taken_once(
    umem: &mut UmemInner,
    queues: (XskRingProd, XskRingCons),
)
    requires
        call_ensures(UmemInner::take_queues, (umem,), queues),
    ensures
        old(umem).saved_fq_and_cq matches Some((fq, cq)) ==> queues.0 == fq && queues.1 == cq,
        old(umem).saved_fq_and_cq is None ==> {
            &&& queues.0.cached_prod == 0 && queues.0.cached_cons == 0 && queues.0.mask == 0
            &&& queues.0.size == 0 && queues.0.producer == 0 && queues.0.consumer == 0
            &&& queues.0.ring == 0 && queues.0.flags == 0
            &&& queues.1.cached_prod == 0 && queues.1.cached_cons == 0 && queues.1.mask == 0
            &&& queues.1.size == 0 && queues.1.producer == 0 && queues.1.consumer == 0
            &&& queues.1.ring == 0 && queues.1.flags == 0
        },
        final(umem).saved_fq_and_cq is None,
        final(umem).umem == old(umem).umem,
        final(umem).restored_fc@ == old(umem).restored_fc@,
{
}

/// A region that a UMEM is handed comes after those that it has, and changes nothing else.
pub proof fn law_handed_region_is_kept(umem: &mut UmemInner, addr: usize, len: usize)
    requires
        call_ensures(UmemInner::attach_restored_fc, (umem, addr, len), ()),
    ensures
        ({
            let n = old(umem).restored_fc@.len() as int;
            &&& final(umem).restored_fc@.len() == n + 1
            &&& final(umem).restored_fc@.take(n) =~= old(umem).restored_fc@
            &&& final(umem).restored_fc@[n].addr == addr
            &&& final(umem).restored_fc@[n].len == len
            &&& final(umem).saved_fq_and_cq == old(umem).saved_fq_and_cq
            &&& final(umem).umem == old(umem).umem
        }),
{
}

/// Giving up a UMEM unmaps each of its regions once, in order.
pub proof fn law_umem_release_unmaps_its_regions(umem: UmemInner, steps: Vec<Release>, i: int)
    requires
        call_ensures(UmemInner::release, (&umem,), steps),
        0 <= i < umem.restored_fc@.len(),
    ensures
        steps@.len() == umem.restored_fc@.len(),
        steps@[i] == (Release::Unmap { region: umem.restored_fc@[i] }),
{
}

/// A socket created via libxdp has no regions of its own. It is given up by having libxdp
/// delete it, and then letting go of the UMEM.
pub proof fn law_libxdp_socket_is_given_up(
    socket: XskSocket,
    umem: Umem,
    inner: SocketInner,
    steps: Vec<Release>,
)
    requires
        call_ensures(SocketInner::new_libxdp, (socket, umem), inner),
        call_ensures(SocketInner::release, (&inner,), steps),
    ensures
        inner.umem == umem,
        steps@ =~= seq![Release::DeleteSocket { ptr: socket.ptr }, Release::DropUmem],
{
}

/// A socket on an inherited descriptor is given up by closing the descriptor and then letting
/// go of the UMEM, as long as it was handed no regions.
pub proof fn law_inherited_socket_is_given_up(
    fd: OwnedFd,
    umem: Umem,
    inner: SocketInner,
    steps: Vec<Release>,
)
    requires
        call_ensures(SocketInner::new_inherited, (fd, umem), inner),
        call_ensures(SocketInner::release, (&inner,), steps),
    ensures
        inner.umem == umem,
        steps@ =~= seq![Release::CloseFd { fd: fd.raw }, Release::DropUmem],
{
}

/// The regions that a socket is handed come after those that it has, RX before TX.
pub proof fn law_socket_keeps_its_regions(
    inner: &mut SocketInner,
    rx_addr: usize,
    rx_len: usize,
    tx_addr: usize,
    tx_len: usize,
)
    requires
        call_ensures(
            SocketInner::attach_rx_tx_mmaps,
            (inner, rx_addr, rx_len, tx_addr, tx_len),
            (),
        ),
    ensures
        ({
            let n = old(inner).rx_tx_mmaps@.len() as int;
            let regions = final(inner).rx_tx_mmaps@;
            &&& regions.len() == n + 2
            &&& regions.take(n) =~= old(inner).rx_tx_mmaps@
            &&& regions[n] == (RawMmap { addr: rx_addr, len: rx_len })
            &&& regions[n + 1] == (RawMmap { addr: tx_addr, len: tx_len })
            &&& final(inner).owner == old(inner).owner
            &&& final(inner).umem == old(inner).umem
        }),
{
}

/// A socket is given up before its hold on the UMEM, and that before its regions.
pub proof fn law_socket_release_is_in_order(inner: SocketInner, steps: Vec<Release>)
    requires
        call_ensures(SocketInner::release, (&inner,), steps),
    ensures
        steps@.len() == 2 + inner.rx_tx_mmaps@.len(),
        match inner.owner {
            SocketOwner::Libxdp(socket) => steps@[0] == (Release::DeleteSocket {
                ptr: socket.ptr,
            }),
            SocketOwner::Inherited(fd) => steps@[0] == (Release::CloseFd { fd: fd.raw }),
        },
        steps@[1] is DropUmem,
        forall|i: int|
            0 <= i < inner.rx_tx_mmaps@.len() ==> #[trigger] steps@[2 + i] == (Release::Unmap {
                region: inner.rx_tx_mmaps@[i],
            }),
{
}

/// The call that creates a socket gets the interface, the queue and the configuration as they
/// were asked for, null RX and TX rings, and the rings of the UMEM unless they are taken.
pub proof fn law_creation_asks_for_what_was_wanted<'a>(
    config: SocketConfig,
    umem: &mut UmemInner,
    if_name: &'a str,
    queue_id: u32,
    started: (SocketCreation, CreateRequest<'a>),
)
    requires
        call_ensures(Socket::new, (config, umem, if_name, queue_id), started),
    ensures
        started.0.umem == old(umem).umem,
        started.1.if_name == if_name,
        started.1.queue_id == queue_id,
        started.1.config == config,
        started.1.rx_q.ring == 0 && started.1.rx_q.size == 0,
        started.1.rx_q.producer == 0 && started.1.rx_q.consumer == 0 && started.1.rx_q.flags == 0,
        started.1.tx_q.ring == 0 && started.1.tx_q.size == 0,
        started.1.tx_q.producer == 0 && started.1.tx_q.consumer == 0 && started.1.tx_q.flags == 0,
        match old(umem).saved_fq_and_cq {
            Some((fq, cq)) => started.1.saved_queues && started.1.fq == fq && started.1.cq == cq,
            None => !started.1.saved_queues && started.1.fq.ring == 0 && started.1.cq.ring == 0,
        },
        final(umem).saved_fq_and_cq is None,
        final(umem).umem == old(umem).umem,
        final(umem).restored_fc@ == old(umem).restored_fc@,
{
}

/// A socket was created exactly where libxdp returned no error and set a socket. Otherwise
/// the error has the code that libxdp returned, negated.
pub proof fn law_creation_fails_with_the_code_of_libxdp(
    creation: SocketCreation,
    reply: CreateReply,
    result: Result<CreatedSocket, SocketCreateError>,
)
    requires
        call_ensures(SocketCreation::created, (creation, reply), result),
    ensures
        result is Ok <==> reply.err == 0 && reply.socket != 0,
        result matches Err(error) ==> error.err.code == -reply.err,
        result matches Err(error) ==> reply.err != 0 ==> error.reason@
            == "non-zero error code returned when creating AF_XDP socket"@,
        result matches Err(error) ==> reply.err == 0 ==> error.reason@
            == "returned socket pointer was null"@,
{
}

/// From the reply of `xsk_socket__create_shared` to the queues: the TX and RX queues hold the
/// rings that the reply carries, and the fill and completion queues too unless those are
/// null. The socket that the reply carries is asked for its descriptor, and is in the end
/// owned by the queues or left to delete.
pub proof fn law_reply_becomes_queues(
    creation: SocketCreation,
    reply: CreateReply,
    created: CreatedSocket,
    asked: usize,
    fd: i32,
    result: Result<(TxQueue, RxQueue, Option<(FillQueue, CompQueue)>), CreateFailure>,
)
    requires
        call_ensures(
            SocketCreation::created,
            (creation, reply),
            Ok::<CreatedSocket, SocketCreateError>(created),
        ),
        call_ensures(CreatedSocket::request, (&created,), asked),
        call_ensures(CreatedSocket::fetched, (created, fd), result),
    ensures
        asked == reply.socket,
        result is Ok <==> fd >= 0 && reply.tx_q.ring != 0 && reply.rx_q.ring != 0 && (reply.fq.ring
            == 0 <==> reply.cq.ring == 0),
        result matches Ok(queues) ==> {
            &&& queues.0.ring == reply.tx_q
            &&& queues.1.ring == reply.rx_q
            &&& queues.0.socket == queues.1.socket
            &&& queues.0.socket.fd.raw == fd
            &&& queues.0.socket.inner.owner == SocketOwner::Libxdp(
                XskSocket { ptr: reply.socket },
            )
            &&& queues.0.socket.inner.umem == creation.umem
            &&& queues.0.socket.inner.rx_tx_mmaps@.len() == 0
            &&& match queues.2 {
                Some((fq, cq)) => reply.fq.ring != 0 && fq.ring == reply.fq && cq.ring == reply.cq
                    && fq.umem == creation.umem && cq.umem == creation.umem,
                None => reply.fq.ring == 0,
            }
        },
        result matches Err(failure) ==> failure.delete.ptr == reply.socket,
        result matches Err(failure) ==> failure.error.err.code == (if fd < 0 {
            -fd
        } else {
            0
        }),
{
}

/// A created socket that cannot be used is refused for its first defect, in this order: no
/// descriptor, no TX ring, no RX ring, one of the fill and completion rings without the
/// other.
pub proof fn law_refusal_names_the_first_defect(
    created: CreatedSocket,
    fd: i32,
    failure: CreateFailure,
)
    requires
        call_ensures(
            CreatedSocket::fetched,
            (created, fd),
            Err::<(TxQueue, RxQueue, Option<(FillQueue, CompQueue)>), CreateFailure>(failure),
        ),
    ensures
        failure.error.reason@ == (if fd < 0 {
            "failed to retrieve AF_XDP socket file descriptor"@
        } else if created.tx_q.ring == 0 {
            "returned tx queue ring is null"@
        } else if created.rx_q.ring == 0 {
            "returned rx queue ring is null"@
        } else {
            "fill queue xor comp queue ring is null, either both or neither should be non-null"@
        }),
{
}

/// An XSKMAP is updated through libxdp exactly where libxdp has the socket: with that socket
/// and the given map. What comes of it is told by the sign of what the call returns, and a
/// failure by a message that ends in that number.
pub proof fn law_xskmap_update_goes_through_libxdp(
    socket: Socket,
    map_fd: i32,
    asked: Result<XskmapUpdate, String>,
    update: XskmapUpdate,
    ret: i32,
    result: Result<(), String>,
)
    requires
        call_ensures(Socket::update_xskmap, (&socket, map_fd), asked),
        call_ensures(XskmapUpdate::updated, (update, ret), result),
    ensures
        match socket.inner.owner {
            SocketOwner::Libxdp(owned) => asked matches Ok(update) && update.socket == owned.ptr
                && update.map_fd == map_fd,
            SocketOwner::Inherited(_) => asked matches Err(message) && message@
                == "update_xskmap is not available on sockets reconstructed via from_raw_fd; the successor must update the XSKMAP by raw FD instead"@,
        },
        result is Ok <==> ret >= 0,
        result matches Err(message) ==> {
            let start = "xsk_socket__update_xskmap failed: "@;
            let n = start.len() as int;
            &&& message@.take(n) == start
            &&& message@[n] == '-'
            &&& -value(message@.skip(n + 1)) == ret
        },
{
    if ret < 0 {
        crate::laws::messages::law_xskmap_failure_tells_the_code(ret);
    }
}

/// The fields of a ring lie at their offsets from where the ring is mapped, and a ring is
/// reachable exactly where all of them have addresses.
pub proof fn law_fields_lie_at_their_offsets(
    off: RingOffset,
    base: usize,
    reachable: bool,
    producer: usize,
    consumer: usize,
)
    requires
        call_ensures(RingOffset::is_reachable_from, (&off, base), reachable),
        call_ensures(RingOffset::producer_addr, (&off, base), producer),
        call_ensures(RingOffset::consumer_addr, (&off, base), consumer),
    ensures
        reachable <==> base + off.producer <= usize::MAX && base + off.consumer <= usize::MAX
            && base + off.desc <= usize::MAX && base + off.flags <= usize::MAX,
        producer - base == off.producer,
        consumer - base == off.consumer,
{
}

/// A producer ring and a consumer ring over the same memory lie at the same addresses and
/// have the same size. They differ in the cached consumer index alone: the producer's runs
/// ahead by the size, so that it counts what is free and not what is there.
pub proof fn law_both_sides_of_a_ring_agree(
    base: usize,
    off: RingOffset,
    size: u32,
    producer: u32,
    consumer: u32,
    prod: XskRingProd,
    cons: XskRingCons,
)
    requires
        size >= 1,
        base + off.producer <= usize::MAX,
        base + off.consumer <= usize::MAX,
        base + off.desc <= usize::MAX,
        base + off.flags <= usize::MAX,
        call_ensures(build_ring_prod, (base, &off, size, producer, consumer), prod),
        call_ensures(build_ring_cons, (base, &off, size, producer, consumer), cons),
    ensures
        prod.producer == cons.producer == base + off.producer,
        prod.consumer == cons.consumer == base + off.consumer,
        prod.ring == cons.ring == base + off.desc,
        prod.flags == cons.flags == base + off.flags,
        prod.size == cons.size == size,
        prod.mask == cons.mask == size - 1,
        prod.cached_prod == cons.cached_prod == producer,
        cons.cached_cons == consumer,
        (prod.cached_cons - cons.cached_cons) % 0x1_0000_0000 == size,
        (producer - consumer) % 0x1_0000_0000 <= size ==> (prod.cached_cons - prod.cached_prod)
            % 0x1_0000_0000 + (cons.cached_prod - cons.cached_cons) % 0x1_0000_0000 == size,
{
}

/// A ring is null exactly where it has no descriptors, and one that was not mapped yet is.
pub proof fn law_ring_is_null_without_descriptors(
    prod: XskRingProd,
    cons: XskRingCons,
    prod_null: bool,
    cons_null: bool,
    no_prod: XskRingProd,
    no_cons: XskRingCons,
)
    requires
        call_ensures(XskRingProd::is_ring_null, (&prod,), prod_null),
        call_ensures(XskRingCons::is_ring_null, (&cons,), cons_null),
        call_ensures(XskRingProd::default, (), no_prod),
        call_ensures(XskRingCons::default, (), no_cons),
    ensures
        prod_null <==> prod.ring == 0,
        cons_null <==> cons.ring == 0,
        no_prod.ring == 0 && no_prod.size == 0 && no_prod.mask == 0,
        no_prod.cached_prod == 0 && no_prod.cached_cons == 0,
        no_prod.producer == 0 && no_prod.consumer == 0 && no_prod.flags == 0,
        no_cons.ring == 0 && no_cons.size == 0 && no_cons.mask == 0,
        no_cons.cached_prod == 0 && no_cons.cached_cons == 0,
        no_cons.producer == 0 && no_cons.consumer == 0 && no_cons.flags == 0,
{
}

/// Rebuilding a socket starts with the inherited descriptor and with the ring sizes of the
/// configuration, each for its own ring, and first asks the kernel where the rings lie.
pub proof fn law_restore_starts_with_the_configured_sizes(
    config: SocketConfig,
    fd: OwnedFd,
    state: RestoreState,
    call: RestoreCall,
)
    requires
        call_ensures(Socket::from_inherited_fd, (config, fd), state),
        call_ensures(RestoreState::request, (&state,), call),
    ensures
        state matches RestoreState::Locating { socket } && socket.fd == fd && socket.rx_size
            == config.rx_queue_size && socket.tx_size == config.tx_queue_size,
        call == (RestoreCall::Getsockopt { fd: fd.raw, level: 283, option: 1, len: 128 }),
{
}

/// The ring at hand has its own offsets, and the one after it comes next.
pub proof fn law_ring_at_hand_has_its_offsets(
    progress: Progress,
    kind: RingKind,
    next: Option<RingKind>,
    offsets: MmapOffsets,
    off: RingOffset,
)
    requires
        call_ensures(Progress::kind, (&progress,), kind),
        call_ensures(Progress::next_kind, (&progress,), next),
        call_ensures(MmapOffsets::of, (&offsets, kind), off),
    ensures
        match progress {
            Progress::Rx => kind is Rx && next == Some(RingKind::Tx) && off == offsets.rx,
            Progress::Tx { .. } => kind is Tx && next == Some(RingKind::Fill) && off == offsets.tx,
            Progress::Fill { .. } => kind is Fill && next == Some(RingKind::Completion) && off
                == offsets.fr,
            Progress::Completion { .. } => kind is Completion && next is None && off == offsets.cr,
        },
{
}

/// From the replies to the queues: after the nine calls that rebuild a socket on the
/// descriptor `fd`, every queue stands at the indices that were read from its own ring, and
/// its ring lies where that ring was mapped. What was mapped for TX and RX is the socket's,
/// what was mapped for fill and completion the UMEM's.
pub proof fn law_replies_become_queues(
    config: SocketConfig,
    fd: OwnedFd,
    offsets: MmapOffsets,
    rx: MappedRing,
    tx: MappedRing,
    fr: MappedRing,
    cr: MappedRing,
    errno: i32,
    states: Seq<RestoreState>,
    restored: Restored,
    umem: &mut UmemInner,
    queues: (TxQueue, RxQueue, Option<(FillQueue, CompQueue)>),
)
    requires
        states.len() == 9,
        call_ensures(Socket::from_inherited_fd, (config, fd), states[0]),
        call_ensures(
            RestoreState::step,
            (states[0], RestoreReply::Getsockopt { rc: 0, offsets, errno }),
            RestoreStep::Next(states[1]),
        ),
        call_ensures(
            RestoreState::step,
            (states[1], RestoreReply::Mmap { addr: rx.base, errno }),
            RestoreStep::Next(states[2]),
        ),
        call_ensures(
            RestoreState::step,
            (
                states[2],
                RestoreReply::ReadIndices { producer: rx.producer, consumer: rx.consumer },
            ),
            RestoreStep::Next(states[3]),
        ),
        call_ensures(
            RestoreState::step,
            (states[3], RestoreReply::Mmap { addr: tx.base, errno }),
            RestoreStep::Next(states[4]),
        ),
        call_ensures(
            RestoreState::step,
            (
                states[4],
                RestoreReply::ReadIndices { producer: tx.producer, consumer: tx.consumer },
            ),
            RestoreStep::Next(states[5]),
        ),
        call_ensures(
            RestoreState::step,
            (states[5], RestoreReply::Mmap { addr: fr.base, errno }),
            RestoreStep::Next(states[6]),
        ),
        call_ensures(
            RestoreState::step,
            (
                states[6],
                RestoreReply::ReadIndices { producer: fr.producer, consumer: fr.consumer },
            ),
            RestoreStep::Next(states[7]),
        ),
        call_ensures(
            RestoreState::step,
            (states[7], RestoreReply::Mmap { addr: cr.base, errno }),
            RestoreStep::Next(states[8]),
        ),
        call_ensures(
            RestoreState::step,
            (
                states[8],
                RestoreReply::ReadIndices { producer: cr.producer, consumer: cr.consumer },
            ),
            RestoreStep::Ready(restored),
        ),
        call_ensures(Restored::finish, (restored, umem), queues),
    ensures
        ({
            let ring = queues.0.ring;
            let outstanding = (tx.producer - tx.consumer) % 0x1_0000_0000;
            &&& ring.cached_prod == tx.producer
            &&& (ring.cached_cons - tx.consumer) % 0x1_0000_0000 == config.tx_queue_size
            &&& outstanding <= config.tx_queue_size ==> (ring.cached_cons - ring.cached_prod)
                % 0x1_0000_0000 == config.tx_queue_size - outstanding
            &&& ring.size == config.tx_queue_size
            &&& ring.mask + 1 == config.tx_queue_size
            &&& ring.producer == tx.base + offsets.tx.producer
            &&& ring.consumer == tx.base + offsets.tx.consumer
            &&& ring.ring == tx.base + offsets.tx.desc
            &&& ring.flags == tx.base + offsets.tx.flags
        }),
        ({
            let ring = queues.1.ring;
            &&& ring.cached_prod == rx.producer
            &&& ring.cached_cons == rx.consumer
            &&& ring.size == config.rx_queue_size
            &&& ring.mask + 1 == config.rx_queue_size
            &&& ring.producer == rx.base + offsets.rx.producer
            &&& ring.consumer == rx.base + offsets.rx.consumer
            &&& ring.ring == rx.base + offsets.rx.desc
            &&& ring.flags == rx.base + offsets.rx.flags
        }),
        queues.2 matches Some((fq, cq)) && {
            let outstanding = (fr.producer - fr.consumer) % 0x1_0000_0000;
            &&& fq.ring.cached_prod == fr.producer
            &&& (fq.ring.cached_cons - fr.consumer) % 0x1_0000_0000 == 2048
            &&& outstanding <= 2048 ==> (fq.ring.cached_cons - fq.ring.cached_prod)
                % 0x1_0000_0000 == 2048 - outstanding
            &&& fq.ring.size == 2048
            &&& fq.ring.mask == 2047
            &&& fq.ring.producer == fr.base + offsets.fr.producer
            &&& fq.ring.consumer == fr.base + offsets.fr.consumer
            &&& fq.ring.ring == fr.base + offsets.fr.desc
            &&& fq.ring.flags == fr.base + offsets.fr.flags
            &&& cq.ring.cached_prod == cr.producer
            &&& cq.ring.cached_cons == cr.consumer
            &&& cq.ring.size == 2048
            &&& cq.ring.mask == 2047
            &&& cq.ring.producer == cr.base + offsets.cr.producer
            &&& cq.ring.consumer == cr.base + offsets.cr.consumer
            &&& cq.ring.ring == cr.base + offsets.cr.desc
            &&& cq.ring.flags == cr.base + offsets.cr.flags
            &&& fq.umem == old(umem).umem
            &&& cq.umem == old(umem).umem
        },
        queues.0.socket == queues.1.socket,
        queues.0.socket.fd.raw == fd.raw,
        queues.0.socket.inner.owner == SocketOwner::Inherited(fd),
        queues.0.socket.inner.umem == old(umem).umem,
        queues.0.socket.inner.rx_tx_mmaps@.len() == 2,
        queues.0.socket.inner.rx_tx_mmaps@[0].addr == rx.base,
        queues.0.socket.inner.rx_tx_mmaps@[0].len == offsets.rx.desc + 16 * config.rx_queue_size,
        queues.0.socket.inner.rx_tx_mmaps@[1].addr == tx.base,
        queues.0.socket.inner.rx_tx_mmaps@[1].len == offsets.tx.desc + 16 * config.tx_queue_size,
        ({
            let n = old(umem).restored_fc@.len() as int;
            let regions = final(umem).restored_fc@;
            &&& final(umem).umem == old(umem).umem
            &&& final(umem).saved_fq_and_cq == old(umem).saved_fq_and_cq
            &&& regions.len() == n + 2
            &&& regions.take(n) =~= old(umem).restored_fc@
            &&& regions[n].addr == fr.base
            &&& regions[n].len == offsets.fr.desc + 8 * 2048
            &&& regions[n + 1].addr == cr.base
            &&& regions[n + 1].len == offsets.cr.desc + 8 * 2048
        }),
{
}

} // verus!
