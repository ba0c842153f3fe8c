//! Laws of rebuilding a socket.

use vstd::prelude::*;

use crate::os::{OwnedFd, RawMmap};
use crate::restore::{
    Inherited, MappedRing, Progress, Restored, RestoreCall, RestoreReply, RestoreState, RestoreStep, RingKind,
};
use crate::ring::{MmapOffsets, XskRingCons, XskRingProd};
use crate::socket::{CompQueue, FillQueue, RxQueue, SocketOwner, TxQueue};
use crate::umem::{Umem, UmemInner};

verus! {

/// Where a socket being rebuilt is after a sequence of replies. Replies after its end
/// have no effect.
pub open spec fn run(state: RestoreState, replies: Seq<RestoreReply>) -> RestoreStep
    decreases replies.len(),
{
    if replies.len() == 0 {
        RestoreStep::Next(state)
    } else {
        match state.after(replies[0]) {
            RestoreStep::Next(next) => run(next, replies.skip(1)),
            end => end,
        }
    }
}

/// The socket that is being rebuilt.
pub open spec fn inherited(state: RestoreState) -> Inherited {
    match state {
        RestoreState::Locating { socket } => socket,
        RestoreState::Mapping { socket, .. } => socket,
        RestoreState::Reading { socket, .. } => socket,
    }
}

/// The inherited descriptor always has exactly one owner, whatever the replies are: the
/// socket being rebuilt, the rebuilt socket, or the failure that hands it back.
pub proof fn law_inherited_fd_has_one_owner(state: RestoreState, replies: Seq<RestoreReply>)
    ensures
        match run(state, replies) {
            RestoreStep::Next(next) => inherited(next) == inherited(state),
            RestoreStep::Ready(restored) => restored.socket == inherited(state),
            RestoreStep::Failed(failure) => failure.close == inherited(state).fd,
        },
    decreases replies.len(),
{
    if replies.len() > 0 {
        match state.after(replies[0]) {
            RestoreStep::Next(next) => law_inherited_fd_has_one_owner(next, replies.skip(1)),
            _ => {},
        }
    }
}

/// The replies to the calls that rebuild a socket, where all of them succeed: first the
/// offsets, and for RX, TX, fill and completion in turn the address and the indices.
pub open spec fn successful_replies(
    offsets: MmapOffsets,
    rx: MappedRing,
    tx: MappedRing,
    fr: MappedRing,
    cr: MappedRing,
) -> Seq<RestoreReply> {
    seq![
        RestoreReply::Getsockopt { rc: 0, offsets, errno: 0 },
        RestoreReply::Mmap { addr: rx.base, errno: 0 },
        RestoreReply::ReadIndices { producer: rx.producer, consumer: rx.consumer },
        RestoreReply::Mmap { addr: tx.base, errno: 0 },
        RestoreReply::ReadIndices { producer: tx.producer, consumer: tx.consumer },
        RestoreReply::Mmap { addr: fr.base, errno: 0 },
        RestoreReply::ReadIndices { producer: fr.producer, consumer: fr.consumer },
        RestoreReply::Mmap { addr: cr.base, errno: 0 },
        RestoreReply::ReadIndices { producer: cr.producer, consumer: cr.consumer },
    ]
}

/// Where every call succeeds the socket is rebuilt, and each ring is the one that was
/// mapped and read in its turn.
pub proof fn law_restore_succeeds(
    socket: Inherited,
    offsets: MmapOffsets,
    rx: MappedRing,
    tx: MappedRing,
    fr: MappedRing,
    cr: MappedRing,
)
    requires
        rx.base != usize::MAX,
        tx.base != usize::MAX,
        fr.base != usize::MAX,
        cr.base != usize::MAX,
    ensures
        run(
            RestoreState::Locating { socket },
            successful_replies(offsets, rx, tx, fr, cr),
        ) == RestoreStep::Ready(Restored { socket, offsets, rx, tx, fr, cr }),
{
    reveal_with_fuel(run, 10);
}

/// Every reply can be represented in the state that it meets.
pub open spec fn admitted(state: RestoreState, replies: Seq<RestoreReply>) -> bool
    decreases replies.len(),
{
    replies.len() > 0 ==> state.admits(replies[0]) && (state.after(
        replies[0],
    ) matches RestoreStep::Next(next) ==> admitted(next, replies.skip(1)))
}

/// A rebuilt socket has addresses for all fields of all of its rings, and so has every
/// socket on the way.
pub proof fn law_restore_stays_well_formed(state: RestoreState, replies: Seq<RestoreReply>)
    requires
        state.wf(),
        admitted(state, replies),
    ensures
        match run(state, replies) {
            RestoreStep::Next(next) => next.wf(),
            RestoreStep::Ready(restored) => restored.wf(),
            RestoreStep::Failed(_) => true,
        },
    decreases replies.len(),
{
    if replies.len() > 0 {
        match state.after(replies[0]) {
            RestoreStep::Next(next) => {
                assert(next.wf());
                law_restore_stays_well_formed(next, replies.skip(1));
            },
            _ => {},
        }
    }
}

/// No ring that was passed so far stands at the address of a failed mapping.
pub open spec fn rings_mapped(step: RestoreStep) -> bool {
    match step {
        RestoreStep::Next(RestoreState::Locating { .. }) => true,
        RestoreStep::Next(RestoreState::Mapping { progress, .. }) => progress_mapped(progress),
        RestoreStep::Next(RestoreState::Reading { progress, base, .. }) => progress_mapped(
            progress,
        ) && base != usize::MAX,
        RestoreStep::Ready(restored) => forall|kind: RingKind| #[trigger]
            restored.spec_ring(kind).base != usize::MAX,
        RestoreStep::Failed(_) => true,
    }
}

pub open spec fn progress_mapped(progress: Progress) -> bool {
    match progress {
        Progress::Rx => true,
        Progress::Tx { rx } => rx.base != usize::MAX,
        Progress::Fill { rx, tx } => rx.base != usize::MAX && tx.base != usize::MAX,
        Progress::Completion { rx, tx, fr } => rx.base != usize::MAX && tx.base != usize::MAX
            && fr.base != usize::MAX,
    }
}

/// A socket is rebuilt only where each of its rings was mapped: one failed mapping ends
/// the attempt.
pub proof fn law_restored_rings_are_mapped(state: RestoreState, replies: Seq<RestoreReply>)
    requires
        rings_mapped(RestoreStep::Next(state)),
    ensures
        rings_mapped(run(state, replies)),
    decreases replies.len(),
{
    if replies.len() > 0 {
        let step = state.after(replies[0]);
        assert(rings_mapped(step));
        match step {
            RestoreStep::Next(next) => law_restored_rings_are_mapped(next, replies.skip(1)),
            _ => {},
        }
    }
}

/// No ring is mapped before the kernel has said where the rings' fields lie.
pub proof fn law_offsets_come_first(socket: Inherited, replies: Seq<RestoreReply>)
    requires
        forall|i: int|
            0 <= i < replies.len() ==> !(#[trigger] replies[i] matches RestoreReply::Getsockopt {
                rc,
                offsets,
                errno,
            } && rc == 0),
    ensures
        !(run(RestoreState::Locating { socket }, replies) is Ready),
        run(RestoreState::Locating { socket }, replies) matches RestoreStep::Next(state) ==> state
            == (RestoreState::Locating { socket }),
    decreases replies.len(),
{
    if replies.len() > 0 {
        assert(!(replies[0] matches RestoreReply::Getsockopt { rc, offsets, errno } && rc == 0));
        assert forall|i: int| 0 <= i < replies.skip(1).len() implies !(#[trigger] replies.skip(
            1,
        )[i] matches RestoreReply::Getsockopt { rc, offsets, errno } && rc == 0) by {
            assert(replies.skip(1)[i] == replies[i + 1]);
        }
        law_offsets_come_first(socket, replies.skip(1));
    }
}

/// The descriptors of each ring end exactly where the ring's region ends.
pub proof fn law_descriptors_fill_the_region(restored: Restored)
    requires
        restored.wf(),
    ensures
        restored.rx_ring().ring + 16 * restored.socket.rx_size == end(
            restored.region(RingKind::Rx),
        ),
        restored.tx_ring().ring + 16 * restored.socket.tx_size == end(
            restored.region(RingKind::Tx),
        ),
        restored.fill_ring().ring + 8 * restored.fill_ring().size == end(
            restored.region(RingKind::Fill),
        ),
        restored.comp_ring().ring + 8 * restored.comp_ring().size == end(
            restored.region(RingKind::Completion),
        ),
{
}

/// The first address after a region.
pub open spec fn end(region: RawMmap) -> int {
    region.addr + region.len
}

/// Every ring is mapped shared with the kernel, with room for its last descriptor, from
/// a part of the socket's file that is its own.
pub proof fn law_rings_are_shared_and_apart(
    socket: Inherited,
    offsets: MmapOffsets,
    progress: Progress,
    call: RestoreCall,
)
    requires
        socket.ring_fits(offsets, progress.spec_kind()),
        (RestoreState::Mapping { socket, offsets, progress }).requests(call),
    ensures
        call matches RestoreCall::Mmap(request) && {
            &&& request.flags & 0x1 == 0x1
            &&& request.fd == socket.fd.raw
            &&& request.len == socket.spec_ring_len(offsets, progress.spec_kind())
            &&& forall|kind: RingKind|
                kind != progress.spec_kind() ==> #[trigger] kind.page_offset() != request.offset
        },
{
    assert(0x8001i32 & 0x1 == 0x1) by (bit_vector);
    assert(0x1_0001i32 & 0x1 == 0x1) by (bit_vector);
}

/// The kernel is asked for the offsets of the rings on the inherited descriptor: the option
/// is the first of those of XDP, and the answer has the size of four rings of four offsets
/// of eight bytes.
pub proof fn law_offsets_are_asked_for(socket: Inherited, call: RestoreCall)
    requires
        (RestoreState::Locating { socket }).requests(call),
    ensures
        call matches RestoreCall::Getsockopt { fd, level, option, len } && {
            &&& fd == socket.fd.raw
            &&& level == 283
            &&& option == 1
            &&& len == 4 * 4 * 8
        },
{
}

/// Every ring is mapped in its turn from the page offset that is its own, up to its last
/// descriptor. Descriptors of RX and TX take 16 bytes each, as many as the socket has
/// entries. Those of fill and completion take 8 bytes each, and there are 2048 of them.
pub proof fn law_rings_are_mapped_whole(
    socket: Inherited,
    offsets: MmapOffsets,
    progress: Progress,
    call: RestoreCall,
)
    requires
        (RestoreState::Mapping { socket, offsets, progress }).requests(call),
    ensures
        call matches RestoreCall::Mmap(request) && {
            &&& request.fd == socket.fd.raw
            &&& request.prot & 0x1 == 0x1
            &&& request.prot & 0x2 == 0x2
            &&& request.prot & 0x4 == 0
            &&& request.flags & 0x1 == 0x1
            &&& request.flags & 0x1_8000 != 0
            &&& match progress {
                Progress::Rx => {
                    let len = offsets.rx.desc + 16 * socket.rx_size;
                    request.offset == 0 && (len <= usize::MAX ==> request.len == len)
                },
                Progress::Tx { .. } => {
                    let len = offsets.tx.desc + 16 * socket.tx_size;
                    request.offset == 0x8000_0000 && (len <= usize::MAX ==> request.len == len)
                },
                Progress::Fill { .. } => {
                    let len = offsets.fr.desc + 8 * 2048;
                    request.offset == 0x1_0000_0000 && (len <= usize::MAX ==> request.len == len)
                },
                Progress::Completion { .. } => {
                    let len = offsets.cr.desc + 8 * 2048;
                    request.offset == 0x1_8000_0000 && (len <= usize::MAX ==> request.len == len)
                },
            }
        },
{
    assert(0x8001i32 & 0x1 == 0x1 && 0x8001i32 & 0x1_8000 != 0) by (bit_vector);
    assert(0x1_0001i32 & 0x1 == 0x1 && 0x1_0001i32 & 0x1_8000 != 0) by (bit_vector);
    assert(3i32 & 0x1 == 0x1 && 3i32 & 0x2 == 0x2 && 3i32 & 0x4 == 0) by (bit_vector);
}

/// The indices of a ring are read where the kernel put them: at the ring's own offsets from
/// where the ring was mapped.
pub proof fn law_indices_are_read_in_place(
    socket: Inherited,
    offsets: MmapOffsets,
    progress: Progress,
    base: usize,
    call: RestoreCall,
)
    requires
        (RestoreState::Reading { socket, offsets, progress, base }).requests(call),
    ensures
        call matches RestoreCall::ReadIndices { producer, consumer } && {
            let off = match progress {
                Progress::Rx => offsets.rx,
                Progress::Tx { .. } => offsets.tx,
                Progress::Fill { .. } => offsets.fr,
                Progress::Completion { .. } => offsets.cr,
            };
            &&& base + off.producer <= usize::MAX ==> producer - base == off.producer
            &&& base + off.consumer <= usize::MAX ==> consumer - base == off.consumer
        },
{
}

/// A reply ends the attempt exactly where it tells of a failed call. The error names the
/// call and has the code that it left behind, and the inherited descriptor is handed back.
pub proof fn law_restore_failures_tell_their_cause(state: RestoreState, reply: RestoreReply)
    ensures
        match (state, reply) {
            (
                RestoreState::Locating { socket },
                RestoreReply::Getsockopt { rc, offsets, errno },
            ) => {
                &&& state.after(reply) is Failed <==> rc != 0
                &&& state.after(reply) matches RestoreStep::Failed(failure) ==> {
                    &&& failure.error.reason@
                        == "getsockopt(XDP_MMAP_OFFSETS) failed on inherited FD"@
                    &&& failure.error.err.code == errno
                    &&& failure.close == socket.fd
                }
            },
            (RestoreState::Mapping { socket, .. }, RestoreReply::Mmap { addr, errno }) => {
                &&& state.after(reply) is Failed <==> addr == usize::MAX
                &&& state.after(reply) matches RestoreStep::Failed(failure) ==> {
                    &&& failure.error.reason@ == "mmap of inherited ring failed"@
                    &&& failure.error.err.code == errno
                    &&& failure.close == socket.fd
                }
            },
            _ => !(state.after(reply) is Failed),
        },
{
}

/// Where a successful reply leads. The rings come in the order RX, TX, fill, completion.
/// Each is mapped and then read, and what was read before is kept.
pub proof fn law_restore_successes_lead_on(state: RestoreState, reply: RestoreReply)
    ensures
        match (state, reply) {
            (RestoreState::Locating { socket }, RestoreReply::Getsockopt { rc, offsets, .. }) => rc
                == 0 ==> state.after(reply) == RestoreStep::Next(
                RestoreState::Mapping { socket, offsets, progress: Progress::Rx },
            ),
            (
                RestoreState::Mapping { socket, offsets, progress },
                RestoreReply::Mmap { addr, .. },
            ) => addr != usize::MAX ==> state.after(reply) == RestoreStep::Next(
                RestoreState::Reading { socket, offsets, progress, base: addr },
            ),
            (
                RestoreState::Reading { socket, offsets, progress, base },
                RestoreReply::ReadIndices { producer, consumer },
            ) => {
                let ring = MappedRing { base, producer, consumer };
                match progress {
                    Progress::Rx => state.after(reply) == RestoreStep::Next(
                        RestoreState::Mapping {
                            socket,
                            offsets,
                            progress: Progress::Tx { rx: ring },
                        },
                    ),
                    Progress::Tx { rx } => state.after(reply) == RestoreStep::Next(
                        RestoreState::Mapping {
                            socket,
                            offsets,
                            progress: Progress::Fill { rx, tx: ring },
                        },
                    ),
                    Progress::Fill { rx, tx } => state.after(reply) == RestoreStep::Next(
                        RestoreState::Mapping {
                            socket,
                            offsets,
                            progress: Progress::Completion { rx, tx, fr: ring },
                        },
                    ),
                    Progress::Completion { rx, tx, fr } => state.after(reply)
                        == RestoreStep::Ready(
                        Restored { socket, offsets, rx, tx, fr, cr: ring },
                    ),
                }
            },
            _ => state.after(reply) == RestoreStep::Next(state),
        },
{
}

/// The ring at hand is the one that the progress names, and the one after it is the one that
/// comes to hand next.
pub proof fn law_rings_come_in_order(progress: Progress)
    ensures
        match progress {
            Progress::Rx => progress.spec_kind() is Rx && progress.spec_next_kind() == Some(
                RingKind::Tx,
            ),
            Progress::Tx { .. } => progress.spec_kind() is Tx && progress.spec_next_kind() == Some(
                RingKind::Fill,
            ),
            Progress::Fill { .. } => progress.spec_kind() is Fill && progress.spec_next_kind()
                == Some(RingKind::Completion),
            Progress::Completion { .. } => progress.spec_kind() is Completion
                && progress.spec_next_kind() is None,
        },
{
}

/// Each ring has its own offsets.
pub proof fn law_each_ring_has_its_offsets(offsets: MmapOffsets)
    ensures
        offsets.spec_of(RingKind::Rx) == offsets.rx,
        offsets.spec_of(RingKind::Tx) == offsets.tx,
        offsets.spec_of(RingKind::Fill) == offsets.fr,
        offsets.spec_of(RingKind::Completion) == offsets.cr,
{
}

/// A reply is admitted exactly where what follows from it is in range: the length of the
/// ring that is mapped next, or the addresses of the fields of the ring that was mapped.
/// Nothing else is asked of a reply.
pub proof fn law_replies_in_range_are_admitted(state: RestoreState, reply: RestoreReply)
    ensures
        match (state, reply) {
            (
                RestoreState::Locating { socket },
                RestoreReply::Getsockopt { rc, offsets, errno },
            ) => state.admits(reply) <==> rc != 0 || (offsets.rx.desc + 16 * socket.rx_size
                <= usize::MAX && offsets.rx.desc + 16 * socket.rx_size <= u64::MAX),
            (
                RestoreState::Mapping { socket, offsets, progress },
                RestoreReply::Mmap { addr, errno },
            ) => {
                let off = match progress {
                    Progress::Rx => offsets.rx,
                    Progress::Tx { .. } => offsets.tx,
                    Progress::Fill { .. } => offsets.fr,
                    Progress::Completion { .. } => offsets.cr,
                };
                state.admits(reply) <==> addr == usize::MAX || (addr + off.producer <= usize::MAX
                    && addr + off.consumer <= usize::MAX && addr + off.desc <= usize::MAX && addr
                    + off.flags <= usize::MAX)
            },
            (
                RestoreState::Reading { socket, offsets, progress, base },
                RestoreReply::ReadIndices { producer, consumer },
            ) => {
                let len = match progress {
                    Progress::Rx => offsets.tx.desc + 16 * socket.tx_size,
                    Progress::Tx { .. } => offsets.fr.desc + 8 * 2048,
                    Progress::Fill { .. } => offsets.cr.desc + 8 * 2048,
                    Progress::Completion { .. } => 0,
                };
                state.admits(reply) <==> len <= usize::MAX && len <= u64::MAX
            },
            _ => state.admits(reply),
        },
{
}

/// A rebuilt socket is well-formed exactly where its RX and TX rings have entries, and the
/// length and the addresses of each of its rings are in range.
pub proof fn law_well_formed_rings_are_in_range(restored: Restored)
    ensures
        restored.wf() <==> {
            let offsets = restored.offsets;
            let socket = restored.socket;
            &&& socket.rx_size >= 1
            &&& socket.tx_size >= 1
            &&& offsets.rx.desc + 16 * socket.rx_size <= usize::MAX
            &&& offsets.tx.desc + 16 * socket.tx_size <= usize::MAX
            &&& offsets.fr.desc + 8 * 2048 <= usize::MAX
            &&& offsets.cr.desc + 8 * 2048 <= usize::MAX
            &&& offsets.rx.desc + 16 * socket.rx_size <= u64::MAX
            &&& offsets.tx.desc + 16 * socket.tx_size <= u64::MAX
            &&& offsets.fr.desc + 8 * 2048 <= u64::MAX
            &&& offsets.cr.desc + 8 * 2048 <= u64::MAX
            &&& restored.rx.base + offsets.rx.producer <= usize::MAX
            &&& restored.rx.base + offsets.rx.consumer <= usize::MAX
            &&& restored.rx.base + offsets.rx.desc <= usize::MAX
            &&& restored.rx.base + offsets.rx.flags <= usize::MAX
            &&& restored.tx.base + offsets.tx.producer <= usize::MAX
            &&& restored.tx.base + offsets.tx.consumer <= usize::MAX
            &&& restored.tx.base + offsets.tx.desc <= usize::MAX
            &&& restored.tx.base + offsets.tx.flags <= usize::MAX
            &&& restored.fr.base + offsets.fr.producer <= usize::MAX
            &&& restored.fr.base + offsets.fr.consumer <= usize::MAX
            &&& restored.fr.base + offsets.fr.desc <= usize::MAX
            &&& restored.fr.base + offsets.fr.flags <= usize::MAX
            &&& restored.cr.base + offsets.cr.producer <= usize::MAX
            &&& restored.cr.base + offsets.cr.consumer <= usize::MAX
            &&& restored.cr.base + offsets.cr.desc <= usize::MAX
            &&& restored.cr.base + offsets.cr.flags <= usize::MAX
        },
{
}

/// A producer ring takes up where the indices in memory stand: its next entry is the one at
/// the producer index, and it shows as free all entries but the outstanding ones.
pub open spec fn resumes_producing(
    ring: XskRingProd,
    size: u32,
    producer: u32,
    consumer: u32,
) -> bool {
    &&& ring.cached_prod == producer
    &&& (ring.cached_cons - consumer) % 0x1_0000_0000 == size
    &&& (producer - consumer) % 0x1_0000_0000 <= size ==> (ring.cached_cons - ring.cached_prod)
        % 0x1_0000_0000 == size - (producer - consumer) % 0x1_0000_0000
    &&& ring.size == size
    &&& size >= 1 ==> ring.mask + 1 == size
}

/// A consumer ring takes up where the indices in memory stand: its next entry is the one at
/// the consumer index, and it shows as available the entries that were produced since.
pub open spec fn resumes_consuming(
    ring: XskRingCons,
    size: u32,
    producer: u32,
    consumer: u32,
) -> bool {
    &&& ring.cached_prod == producer
    &&& ring.cached_cons == consumer
    &&& (ring.cached_prod - ring.cached_cons) % 0x1_0000_0000 == (producer - consumer)
        % 0x1_0000_0000
    &&& ring.size == size
    &&& size >= 1 ==> ring.mask + 1 == size
}

/// After a restore, every queue takes up where its ring's memory says that the predecessor
/// left off. The TX and fill queues show as free what is not outstanding between the indices
/// in the replies to their own reads, the RX and completion queues show as available what
/// lies between theirs. TX and RX have the sizes of the socket, fill and completion 2048
/// entries.
pub proof fn law_rebuilt_queues_take_up_where_they_stood(
    socket: Inherited,
    offsets: MmapOffsets,
    bases: (usize, usize, usize, usize),
    rx: (u32, u32),
    tx: (u32, u32),
    fr: (u32, u32),
    cr: (u32, u32),
    restored: Restored,
    umem: Umem,
    queues: (TxQueue, RxQueue, Option<(FillQueue, CompQueue)>),
)
    requires
        run(
            RestoreState::Locating { socket },
            seq![
                RestoreReply::Getsockopt { rc: 0, offsets, errno: 0 },
                RestoreReply::Mmap { addr: bases.0, errno: 0 },
                RestoreReply::ReadIndices { producer: rx.0, consumer: rx.1 },
                RestoreReply::Mmap { addr: bases.1, errno: 0 },
                RestoreReply::ReadIndices { producer: tx.0, consumer: tx.1 },
                RestoreReply::Mmap { addr: bases.2, errno: 0 },
                RestoreReply::ReadIndices { producer: fr.0, consumer: fr.1 },
                RestoreReply::Mmap { addr: bases.3, errno: 0 },
                RestoreReply::ReadIndices { producer: cr.0, consumer: cr.1 },
            ],
        ) == RestoreStep::Ready(restored),
        restored.yields(umem, queues),
    ensures
        queues.0.ring.cached_prod == tx.0,
        resumes_producing(queues.0.ring, socket.tx_size, tx.0, tx.1),
        queues.1.ring.cached_cons == rx.1,
        resumes_consuming(queues.1.ring, socket.rx_size, rx.0, rx.1),
        queues.2 matches Some((fq, cq)) && {
            &&& fq.ring.cached_prod == fr.0
            &&& resumes_producing(fq.ring, 2048, fr.0, fr.1)
            &&& cq.ring.cached_cons == cr.1
            &&& resumes_consuming(cq.ring, 2048, cr.0, cr.1)
        },
{
    reveal_with_fuel(run, 10);
}

/// After a restore, every field of every queue's ring lies at the offset that the kernel
/// reported for that field of that ring, from the address where that ring was mapped.
pub proof fn law_rebuilt_rings_lie_at_their_offsets(
    restored: Restored,
    umem: Umem,
    queues: (TxQueue, RxQueue, Option<(FillQueue, CompQueue)>),
)
    requires
        restored.wf(),
        restored.yields(umem, queues),
    ensures
        queues.0.ring.producer == restored.tx.base + restored.offsets.tx.producer,
        queues.0.ring.consumer == restored.tx.base + restored.offsets.tx.consumer,
        queues.0.ring.ring == restored.tx.base + restored.offsets.tx.desc,
        queues.0.ring.flags == restored.tx.base + restored.offsets.tx.flags,
        queues.1.ring.producer == restored.rx.base + restored.offsets.rx.producer,
        queues.1.ring.consumer == restored.rx.base + restored.offsets.rx.consumer,
        queues.1.ring.ring == restored.rx.base + restored.offsets.rx.desc,
        queues.1.ring.flags == restored.rx.base + restored.offsets.rx.flags,
        queues.2 matches Some((fq, cq)) && {
            &&& fq.ring.producer == restored.fr.base + restored.offsets.fr.producer
            &&& fq.ring.consumer == restored.fr.base + restored.offsets.fr.consumer
            &&& fq.ring.ring == restored.fr.base + restored.offsets.fr.desc
            &&& fq.ring.flags == restored.fr.base + restored.offsets.fr.flags
            &&& cq.ring.producer == restored.cr.base + restored.offsets.cr.producer
            &&& cq.ring.consumer == restored.cr.base + restored.offsets.cr.consumer
            &&& cq.ring.ring == restored.cr.base + restored.offsets.cr.desc
            &&& cq.ring.flags == restored.cr.base + restored.offsets.cr.flags
        },
{
}

/// After a restore, the socket owns the inherited descriptor and the RX and TX regions, each
/// from where it was mapped to the end of its last descriptor, and all queues are on the one
/// UMEM.
pub proof fn law_rebuilt_socket_owns_its_regions(
    restored: Restored,
    umem: Umem,
    queues: (TxQueue, RxQueue, Option<(FillQueue, CompQueue)>),
)
    requires
        restored.wf(),
        restored.yields(umem, queues),
    ensures
        queues.0.socket == queues.1.socket,
        queues.0.socket.fd.raw == restored.socket.fd.raw,
        queues.0.socket.inner.owner matches SocketOwner::Inherited(fd) && fd == (OwnedFd {
            raw: restored.socket.fd.raw,
        }),
        queues.0.socket.inner.umem == umem,
        queues.0.socket.inner.rx_tx_mmaps@.len() == 2,
        queues.0.socket.inner.rx_tx_mmaps@[0].addr == restored.rx.base,
        queues.0.socket.inner.rx_tx_mmaps@[0].len == restored.offsets.rx.desc + 16
            * restored.socket.rx_size,
        queues.0.socket.inner.rx_tx_mmaps@[1].addr == restored.tx.base,
        queues.0.socket.inner.rx_tx_mmaps@[1].len == restored.offsets.tx.desc + 16
            * restored.socket.tx_size,
        queues.2 matches Some((fq, cq)) && fq.umem == umem && cq.umem == umem,
{
}

/// After a restore, the UMEM has the fill and completion regions besides those that it had,
/// each from where it was mapped to the end of its last descriptor. Nothing else of it has
/// changed.
pub proof fn law_umem_is_handed_its_regions(restored: Restored, before: UmemInner, after: UmemInner)
    requires
        restored.wf(),
        restored.hands_over(before, after),
    ensures
        ({
            let n = before.restored_fc@.len() as int;
            &&& after.umem == before.umem
            &&& after.saved_fq_and_cq == before.saved_fq_and_cq
            &&& after.restored_fc@.len() == n + 2
            &&& after.restored_fc@.take(n) == before.restored_fc@
            &&& after.restored_fc@[n].addr == restored.fr.base
            &&& after.restored_fc@[n].len == restored.offsets.fr.desc + 8 * 2048
            &&& after.restored_fc@[n + 1].addr == restored.cr.base
            &&& after.restored_fc@[n + 1].len == restored.offsets.cr.desc + 8 * 2048
        }),
{
    assert(after.restored_fc@.take(before.restored_fc@.len() as int) =~= before.restored_fc@);
}

/// As many bytes are unmapped for a ring in the end as the `mmap` call for it asked for.
pub proof fn law_what_is_mapped_is_unmapped(
    restored: Restored,
    rx_call: RestoreCall,
    tx_call: RestoreCall,
    fr_call: RestoreCall,
    cr_call: RestoreCall,
    before: UmemInner,
    after: UmemInner,
    queues: (TxQueue, RxQueue, Option<(FillQueue, CompQueue)>),
)
    requires
        restored.wf(),
        restored.hands_over(before, after),
        restored.yields(after.umem, queues),
        ({
            let Restored { socket, offsets, rx, tx, fr, cr } = restored;
            &&& (RestoreState::Mapping { socket, offsets, progress: Progress::Rx }).requests(
                rx_call,
            )
            &&& (RestoreState::Mapping {
                socket,
                offsets,
                progress: Progress::Tx { rx },
            }).requests(tx_call)
            &&& (RestoreState::Mapping {
                socket,
                offsets,
                progress: Progress::Fill { rx, tx },
            }).requests(fr_call)
            &&& (RestoreState::Mapping {
                socket,
                offsets,
                progress: Progress::Completion { rx, tx, fr },
            }).requests(cr_call)
        }),
    ensures
        ({
            let n = before.restored_fc@.len() as int;
            &&& rx_call matches RestoreCall::Mmap(request) && request.len
                == queues.0.socket.inner.rx_tx_mmaps@[0].len
            &&& tx_call matches RestoreCall::Mmap(request) && request.len
                == queues.0.socket.inner.rx_tx_mmaps@[1].len
            &&& fr_call matches RestoreCall::Mmap(request) && request.len
                == after.restored_fc@[n].len
            &&& cr_call matches RestoreCall::Mmap(request) && request.len
                == after.restored_fc@[n + 1].len
        }),
{
}

} // verus!
