use std::sync::Arc;

use xsk_rs::mmap::Mmap;
use xsk_rs::os::{MmapRequest, OwnedFd, RawMmap, Release};
use xsk_rs::restore::{RestoreCall, RestoreFailure, RestoreReply, RestoreState, RestoreStep};
use xsk_rs::ring::{
    build_ring_cons, build_ring_prod, MmapOffsets, RingOffset, XskRingCons, XskRingProd,
};
use xsk_rs::socket::{
    CreateReply, CreatedSocket, Fd, Socket, SocketConfig, SocketInner, SocketOwner, XskSocket,
    XskmapUpdate,
};
use xsk_rs::umem::{Umem, UmemInner};

fn umem() -> Umem {
    Umem { mem: Arc::new(Mmap { addr: 0x1000, len: 4096, fd: OwnedFd::new(20) }) }
}

fn config() -> SocketConfig {
    SocketConfig {
        rx_queue_size: 4,
        tx_queue_size: 8,
        libxdp_flags: 1,
        xdp_flags: 2,
        bind_flags: 3,
    }
}

fn prod(ring: usize) -> XskRingProd {
    XskRingProd { ring, size: 16, ..XskRingProd::default() }
}

fn cons(ring: usize) -> XskRingCons {
    XskRingCons { ring, size: 16, ..XskRingCons::default() }
}

fn inner(saved: Option<(XskRingProd, XskRingCons)>) -> UmemInner {
    UmemInner { umem: umem(), saved_fq_and_cq: saved, restored_fc: Vec::new() }
}

fn reply() -> CreateReply {
    CreateReply {
        err: 0,
        socket: 0xabc0,
        rx_q: cons(1),
        tx_q: prod(2),
        fq: prod(3),
        cq: cons(4),
    }
}

fn created(reply: CreateReply) -> CreatedSocket {
    let mut inner = inner(None);
    let (creation, _request) = Socket::new(config(), &mut inner, "veth0", 7);
    creation.created(reply).expect("created")
}

#[test]
fn new_offers_the_saved_queues_to_the_first_socket_only() {
    let mut inner = inner(Some((prod(30), cons(40))));
    let (_creation, first) = Socket::new(config(), &mut inner, "veth0", 7);
    assert_eq!(first.if_name, "veth0");
    assert_eq!(first.queue_id, 7);
    assert_eq!(first.config, config());
    assert_eq!((first.fq, first.cq), (prod(30), cons(40)));
    assert!(first.saved_queues);
    assert!(first.rx_q.is_ring_null() && first.tx_q.is_ring_null());
    assert_eq!(inner.saved_fq_and_cq, None);

    let (_creation, second) = Socket::new(config(), &mut inner, "veth0", 8);
    assert_eq!((second.fq, second.cq), (XskRingProd::default(), XskRingCons::default()));
    assert!(!second.saved_queues);
}

#[test]
fn new_reports_the_error_code_of_the_call() {
    let mut inner = inner(None);
    let (creation, _request) = Socket::new(config(), &mut inner, "veth0", 7);
    let error = creation.created(CreateReply { err: -1, ..reply() }).expect_err("refused");
    assert_eq!(error.to_string(), "non-zero error code returned when creating AF_XDP socket");
    assert_eq!(error.source().and_then(|e| e.raw_os_error()), Some(1));
}

#[test]
fn new_reports_a_null_socket() {
    let mut inner = inner(None);
    let (creation, _request) = Socket::new(config(), &mut inner, "veth0", 7);
    let error = creation.created(CreateReply { socket: 0, ..reply() }).expect_err("null");
    assert_eq!(error.to_string(), "returned socket pointer was null");
    assert_eq!(error.err.code, 0);
}

#[test]
fn new_deletes_a_socket_without_a_descriptor() {
    let created = created(reply());
    assert_eq!(created.request(), 0xabc0);
    let failure = created.fetched(-9).expect_err("no descriptor");
    assert_eq!(failure.error.to_string(), "failed to retrieve AF_XDP socket file descriptor");
    assert_eq!(failure.error.err.code, 9);
    assert_eq!(failure.delete, XskSocket { ptr: 0xabc0 });
}

#[test]
fn new_reports_null_rings() {
    let failure =
        created(CreateReply { tx_q: prod(0), rx_q: cons(0), ..reply() }).fetched(5).expect_err("tx");
    assert_eq!(failure.error.to_string(), "returned tx queue ring is null");
    let failure = created(CreateReply { rx_q: cons(0), ..reply() }).fetched(5).expect_err("rx");
    assert_eq!(failure.error.to_string(), "returned rx queue ring is null");
    assert_eq!(failure.error.err.code, 0);
    assert_eq!(failure.delete, XskSocket { ptr: 0xabc0 });
}

#[test]
fn new_reports_one_null_umem_ring() {
    let text = "fill queue xor comp queue ring is null, either both or neither should be non-null";
    let failure = created(CreateReply { fq: prod(0), ..reply() }).fetched(5).expect_err("fill");
    assert_eq!(failure.error.to_string(), text);
    let failure = created(CreateReply { cq: cons(0), ..reply() }).fetched(5).expect_err("comp");
    assert_eq!(failure.error.to_string(), text);
}

#[test]
fn new_hands_out_all_queues() {
    let (tx_q, rx_q, fq_and_cq) = created(reply()).fetched(5).expect("socket");
    let (fq, cq) = fq_and_cq.expect("fill and completion queues");
    assert_eq!((tx_q.ring, rx_q.ring), (prod(2), cons(1)));
    assert_eq!((fq.ring, cq.ring), (prod(3), cons(4)));
    assert_eq!(tx_q.socket.fd.as_raw_fd(), 5);
    assert_eq!(rx_q.socket.fd.as_raw_fd(), 5);
    assert!(Arc::ptr_eq(&tx_q.socket.inner, &rx_q.socket.inner));
    assert!(Arc::ptr_eq(&fq.umem.mem, &cq.umem.mem));
    assert_eq!(
        tx_q.socket.inner.release(),
        vec![Release::DeleteSocket { ptr: 0xabc0 }, Release::DropUmem]
    );
}

#[test]
fn new_on_a_bound_queue_has_no_umem_queues() {
    let mut inner = inner(None);
    let (creation, request) = Socket::new(config(), &mut inner, "veth0", 7);
    let left_null = CreateReply { fq: request.fq, cq: request.cq, ..reply() };
    let created = creation.created(left_null).expect("created");
    let (_tx_q, _rx_q, fq_and_cq) = created.fetched(0).expect("socket");
    assert!(fq_and_cq.is_none());
}

#[test]
fn new_on_an_unbound_queue_of_a_shared_umem_has_queues() {
    let mut inner = inner(None);
    let (creation, request) = Socket::new(config(), &mut inner, "veth0", 8);
    assert!(request.fq.is_ring_null() && request.cq.is_ring_null());
    let created = creation.created(reply()).expect("created");
    let (_tx_q, _rx_q, fq_and_cq) = created.fetched(0).expect("socket");
    let (fq, cq) = fq_and_cq.expect("fill and completion queues");
    assert_eq!((fq.ring, cq.ring), (prod(3), cons(4)));
    assert!(Arc::ptr_eq(&fq.umem.mem, &inner.umem.mem));
}

fn offset(start: u64) -> RingOffset {
    RingOffset { producer: start, consumer: start + 64, flags: start + 128, desc: start + 320 }
}

fn offsets() -> MmapOffsets {
    MmapOffsets { rx: offset(0), tx: offset(8), fr: offset(16), cr: offset(24) }
}

fn next(state: RestoreState, reply: RestoreReply) -> RestoreState {
    assert!(state.accepts(&reply));
    match state.step(reply) {
        RestoreStep::Next(state) => state,
        other => panic!("expected another call, got {:?}", other),
    }
}

fn failure(state: RestoreState, reply: RestoreReply) -> RestoreFailure {
    match state.step(reply) {
        RestoreStep::Failed(failure) => failure,
        other => panic!("expected a failure, got {:?}", other),
    }
}

fn expect_map(state: &RestoreState, len: usize, offset: libc::off_t) {
    assert_eq!(
        state.request(),
        RestoreCall::Mmap(MmapRequest {
            len,
            prot: libc::PROT_READ | libc::PROT_WRITE,
            flags: libc::MAP_SHARED | libc::MAP_POPULATE,
            fd: 11,
            offset,
        })
    );
}

fn mapped(addr: usize) -> RestoreReply {
    RestoreReply::Mmap { addr, errno: 0 }
}

fn indices(producer: u32, consumer: u32) -> RestoreReply {
    RestoreReply::ReadIndices { producer, consumer }
}

fn start() -> RestoreState {
    Socket::from_inherited_fd(config(), OwnedFd::new(11))
}

#[test]
fn inherited_socket_is_rebuilt_ring_by_ring() {
    let state = start();
    assert_eq!(
        state.request(),
        RestoreCall::Getsockopt { fd: 11, level: 283, option: 1, len: 128 }
    );
    let state = next(state, RestoreReply::Getsockopt { rc: 0, offsets: offsets(), errno: 0 });

    expect_map(&state, 320 + 4 * 16, 0);
    let state = next(state, mapped(0x10000));
    assert_eq!(
        state.request(),
        RestoreCall::ReadIndices { producer: 0x10000, consumer: 0x10040 }
    );
    let state = next(state, indices(3, 1));

    expect_map(&state, 328 + 8 * 16, 0x8000_0000);
    let state = next(state, mapped(0x20000));
    let state = next(state, indices(u32::MAX, u32::MAX - 2));

    expect_map(&state, 336 + 2048 * 8, 0x1_0000_0000);
    let state = next(state, mapped(0x30000));
    let state = next(state, indices(10, 0));

    expect_map(&state, 344 + 2048 * 8, 0x1_8000_0000);
    let state = next(state, mapped(0x40000));
    let restored = match state.step(indices(6, 6)) {
        RestoreStep::Ready(restored) => restored,
        other => panic!("expected the socket, got {:?}", other),
    };

    let mut umem_inner = inner(Some((prod(30), cons(40))));
    umem_inner.attach_restored_fc(1, 2);
    let (tx_q, rx_q, fq_and_cq) = restored.finish(&mut umem_inner);
    let (fq, cq) = fq_and_cq.expect("fill and completion queues");

    assert_eq!(
        rx_q.ring,
        XskRingCons {
            cached_prod: 3,
            cached_cons: 1,
            mask: 3,
            size: 4,
            producer: 0x10000,
            consumer: 0x10040,
            flags: 0x10080,
            ring: 0x10140,
        }
    );
    assert_eq!(
        tx_q.ring,
        XskRingProd {
            cached_prod: u32::MAX,
            cached_cons: 5,
            mask: 7,
            size: 8,
            producer: 0x20008,
            consumer: 0x20048,
            flags: 0x20088,
            ring: 0x20148,
        }
    );
    assert_eq!((fq.ring.size, fq.ring.cached_cons), (2048, 2048));
    assert_eq!((cq.ring.size, cq.ring.cached_cons), (2048, 6));
    assert_eq!(fq.ring.ring, 0x30000 + 336);
    assert_eq!(cq.ring.ring, 0x40000 + 344);

    assert_eq!(umem_inner.saved_fq_and_cq, Some((prod(30), cons(40))));
    assert_eq!(
        umem_inner.restored_fc,
        vec![
            RawMmap { addr: 1, len: 2 },
            RawMmap { addr: 0x30000, len: 336 + 2048 * 8 },
            RawMmap { addr: 0x40000, len: 344 + 2048 * 8 },
        ]
    );
    assert_eq!(
        umem_inner.release(),
        vec![
            Release::Unmap { region: RawMmap { addr: 1, len: 2 } },
            Release::Unmap { region: RawMmap { addr: 0x30000, len: 336 + 2048 * 8 } },
            Release::Unmap { region: RawMmap { addr: 0x40000, len: 344 + 2048 * 8 } },
        ]
    );
    assert!(Arc::ptr_eq(&fq.umem.mem, &umem_inner.umem.mem));
    assert!(Arc::ptr_eq(&cq.umem.mem, &umem_inner.umem.mem));
    assert!(Arc::ptr_eq(&tx_q.socket.inner.umem.mem, &umem_inner.umem.mem));
    assert_eq!(tx_q.socket.fd.as_raw_fd(), 11);
    assert_eq!(
        rx_q.socket.inner.release(),
        vec![
            Release::CloseFd { fd: 11 },
            Release::DropUmem,
            Release::Unmap { region: RawMmap { addr: 0x10000, len: 384 } },
            Release::Unmap { region: RawMmap { addr: 0x20000, len: 456 } },
        ]
    );
}

#[test]
fn inherited_socket_without_offsets_fails() {
    let reply = RestoreReply::Getsockopt { rc: -1, offsets: offsets(), errno: libc::EBADF };
    let failure = failure(start(), reply);
    assert_eq!(
        failure.error.to_string(),
        "getsockopt(XDP_MMAP_OFFSETS) failed on inherited FD"
    );
    assert_eq!(failure.error.err.code, libc::EBADF);
    assert_eq!(failure.close, OwnedFd::new(11));
}

#[test]
fn inherited_socket_with_an_unmappable_ring_fails() {
    let state = next(start(), RestoreReply::Getsockopt { rc: 0, offsets: offsets(), errno: 0 });
    let state = next(state, mapped(0x10000));
    let state = next(state, indices(0, 0));
    let failed = RestoreReply::Mmap { addr: libc::MAP_FAILED as usize, errno: libc::ENOMEM };
    assert!(state.accepts(&failed));
    let failure = failure(state, failed);
    assert_eq!(failure.error.to_string(), "mmap of inherited ring failed");
    assert_eq!(failure.error.err.code, libc::ENOMEM);
    assert_eq!(failure.close, OwnedFd::new(11));
}

#[test]
fn offsets_and_addresses_out_of_range_are_not_accepted() {
    let far = RingOffset { desc: u64::MAX - 63, ..offset(0) };
    let reply = RestoreReply::Getsockopt {
        rc: 0,
        offsets: MmapOffsets { rx: far, ..offsets() },
        errno: 0,
    };
    assert!(!start().accepts(&reply));
    let state = next(start(), RestoreReply::Getsockopt { rc: 0, offsets: offsets(), errno: 0 });
    assert!(!state.accepts(&mapped(usize::MAX - 319)));
    assert!(state.accepts(&mapped(usize::MAX - 320)));
}

#[test]
fn an_unmappable_ring_is_reported_before_a_later_ring_is_measured() {
    let far = RingOffset { desc: u64::MAX - 63, ..offset(8) };
    let reply = RestoreReply::Getsockopt {
        rc: 0,
        offsets: MmapOffsets { tx: far, ..offsets() },
        errno: 0,
    };
    let state = next(start(), reply);
    let failed = RestoreReply::Mmap { addr: libc::MAP_FAILED as usize, errno: libc::EAGAIN };
    assert!(state.accepts(&failed));
    let failure = failure(state, failed);
    assert_eq!(failure.error.err.code, libc::EAGAIN);

    let state = next(next(start(), reply), mapped(0x10000));
    assert!(!state.accepts(&indices(0, 0)));
}

#[test]
fn producer_ring_counts_free_entries_across_the_wrap() {
    let ring = build_ring_prod(0x1000, &offset(0), 8, 2, u32::MAX - 1);
    assert_eq!(ring.cached_cons, 6);
    assert_eq!(ring.cached_cons.wrapping_sub(ring.cached_prod), 4);
    let full = build_ring_prod(0x1000, &offset(0), 8, 8, 0);
    assert_eq!(full.cached_cons.wrapping_sub(full.cached_prod), 0);
}

#[test]
fn producer_ring_of_the_wrong_size_miscounts() {
    let ring = build_ring_prod(0x1000, &offset(0), 16, 2, 0);
    assert_ne!(ring.cached_cons.wrapping_sub(ring.cached_prod), 8 - 2);
}

#[test]
fn consumer_ring_counts_available_entries_across_the_wrap() {
    let ring = build_ring_cons(0x1000, &offset(0), 8, 2, u32::MAX - 1);
    assert_eq!(ring.cached_prod.wrapping_sub(ring.cached_cons), 4);
    assert_eq!(13 & ring.mask, 5);
}

#[test]
fn update_xskmap_is_refused_for_an_inherited_socket() {
    let inner = SocketInner::new_inherited(OwnedFd::new(11), umem());
    let socket = Socket { fd: Fd::new(11), inner: Arc::new(inner) };
    assert_eq!(
        socket.update_xskmap(3),
        Err("update_xskmap is not available on sockets reconstructed via from_raw_fd; \
             the successor must update the XSKMAP by raw FD instead"
            .to_string())
    );
}

#[test]
fn update_xskmap_goes_through_libxdp() {
    let inner = SocketInner::new_libxdp(XskSocket::new(0xabc0), umem());
    let socket = Socket { fd: Fd::new(5), inner: Arc::new(inner) };
    let update = socket.clone().update_xskmap(3).expect("libxdp socket");
    assert_eq!(update, XskmapUpdate { socket: 0xabc0, map_fd: 3 });
    assert_eq!(update.updated(0), Ok(()));
    assert_eq!(update.updated(4), Ok(()));
    assert_eq!(
        update.updated(-22),
        Err("xsk_socket__update_xskmap failed: -22".to_string())
    );
    assert_eq!(
        update.updated(i32::MIN),
        Err("xsk_socket__update_xskmap failed: -2147483648".to_string())
    );
    assert_eq!(
        update.updated(-1),
        Err("xsk_socket__update_xskmap failed: -1".to_string())
    );
}

#[test]
fn handles_share_one_socket() {
    let mut inner = SocketInner::new_inherited(OwnedFd::new(11), umem());
    inner.attach_rx_tx_mmaps(1, 2, 3, 4);
    assert_eq!(inner.owner, SocketOwner::Inherited(OwnedFd::new(11)));
    let socket = Socket { fd: Fd::new(11), inner: Arc::new(inner) };
    let other = socket.clone();
    assert_eq!(socket.fd, other.fd);
    assert!(Arc::ptr_eq(&socket.inner, &other.inner));
    assert_eq!(
        other.inner.rx_tx_mmaps,
        vec![RawMmap { addr: 1, len: 2 }, RawMmap { addr: 3, len: 4 }]
    );
}
