//! AF_XDP sockets: what they own, how they are created through libxdp, and how they
//! are entered into an XSKMAP.

use std::sync::Arc;
use vstd::prelude::*;

use crate::error::SocketCreateError;
use crate::os::{append_unmap_steps, unmap_steps, OsError, OwnedFd, RawMmap, Release};
use crate::ring::{XskRingCons, XskRingProd};
use crate::text::{append_decimal, decimal};
use crate::umem::{Umem, UmemInner};

verus! {

/// How a socket is set up.
#[derive(Clone, Copy, Debug, PartialEq, Eq, Structural)]
pub struct SocketConfig {
    /// Entries of the RX ring.
    pub rx_queue_size: u32,
    /// Entries of the TX ring.
    pub tx_queue_size: u32,
    pub libxdp_flags: u32,
    pub xdp_flags: u32,
    pub bind_flags: u16,
}

/// The number of a socket's descriptor. The descriptor belongs to the socket's
/// [`SocketOwner`].
#[derive(Clone, Copy, Debug, PartialEq, Eq, Structural)]
pub struct Fd {
    pub raw: i32,
}

impl Fd {
    pub fn new(raw: i32) -> (fd: Fd)
        ensures
            fd.raw == raw,
    {
        Fd { raw }
    }

    pub fn as_raw_fd(&self) -> (raw: i32)
        ensures
            raw == self.raw,
    {
        self.raw
    }
}

/// A socket that libxdp created, by its address. It is neither `Copy` nor `Clone`:
/// whoever holds the value deletes the socket.
#[derive(Debug, PartialEq, Eq, Structural)]
pub struct XskSocket {
    pub ptr: usize,
}

impl XskSocket {
    /// Takes ownership of the socket at `ptr`.
    pub fn new(ptr: usize) -> (socket: XskSocket)
        requires
            ptr != 0,
        ensures
            socket.ptr == ptr,
    {
        XskSocket { ptr }
    }
}

/// What keeps a socket open. A socket created via libxdp closes its descriptor when
/// libxdp deletes it. A socket rebuilt from an inherited descriptor has no libxdp
/// handle, so the descriptor is owned and closed directly.
#[derive(Debug, PartialEq, Eq, Structural)]
pub enum SocketOwner {
    Libxdp(XskSocket),
    Inherited(OwnedFd),
}

impl SocketOwner {
    /// How the owner lets go of the socket.
    pub open spec fn release_step(self) -> Release {
        match self {
            SocketOwner::Libxdp(socket) => Release::DeleteSocket { ptr: socket.ptr },
            SocketOwner::Inherited(fd) => Release::CloseFd { fd: fd.raw },
        }
    }
}

/// What all handles of a socket share.
#[derive(Debug)]
pub struct SocketInner {
    pub owner: SocketOwner,
    pub umem: Umem,
    /// RX and TX ring regions of an inherited socket. Empty for a socket created via
    /// libxdp, which unmaps its own.
    pub rx_tx_mmaps: Vec<RawMmap>,
}

impl SocketInner {
    pub fn new_libxdp(socket: XskSocket, umem: Umem) -> (inner: SocketInner)
        ensures
            inner.owner == SocketOwner::Libxdp(socket),
            inner.umem == umem,
            inner.rx_tx_mmaps@ == Seq::<RawMmap>::empty(),
    {
        SocketInner { owner: SocketOwner::Libxdp(socket), umem, rx_tx_mmaps: Vec::new() }
    }

    pub fn new_inherited(fd: OwnedFd, umem: Umem) -> (inner: SocketInner)
        ensures
            inner.owner == SocketOwner::Inherited(fd),
            inner.umem == umem,
            inner.rx_tx_mmaps@ == Seq::<RawMmap>::empty(),
    {
        SocketInner { owner: SocketOwner::Inherited(fd), umem, rx_tx_mmaps: Vec::new() }
    }

    /// Hands over the RX and TX ring regions, to be kept for as long as the socket.
    pub fn attach_rx_tx_mmaps(
        &mut self,
        rx_addr: usize,
        rx_len: usize,
        tx_addr: usize,
        tx_len: usize,
    )
        ensures
            final(self).owner == old(self).owner,
            final(self).umem == old(self).umem,
            final(self).rx_tx_mmaps@ == old(self).rx_tx_mmaps@.push(
                RawMmap { addr: rx_addr, len: rx_len },
            ).push(RawMmap { addr: tx_addr, len: tx_len }),
    {
        self.rx_tx_mmaps.push(RawMmap { addr: rx_addr, len: rx_len });
        self.rx_tx_mmaps.push(RawMmap { addr: tx_addr, len: tx_len });
    }

    /// The order in which a socket is given up: the socket itself, then its hold on the
    /// UMEM, then the ring regions.
    pub open spec fn release_steps(self) -> Seq<Release> {
        seq![self.owner.release_step(), Release::DropUmem] + unmap_steps(self.rx_tx_mmaps@)
    }

    /// How to give the socket up once the last handle is gone.
    pub fn release(&self) -> (steps: Vec<Release>)
        ensures
            steps@ == self.release_steps(),
    {
        let first = match &self.owner {
            SocketOwner::Libxdp(socket) => Release::DeleteSocket { ptr: socket.ptr },
            SocketOwner::Inherited(fd) => Release::CloseFd { fd: fd.as_raw_fd() },
        };
        let mut steps: Vec<Release> = vec![first, Release::DropUmem];
        append_unmap_steps(&mut steps, &self.rx_tx_mmaps);
        steps
    }
}

/// An AF_XDP socket. Handles are cloned freely and share one socket.
#[derive(Debug)]
pub struct Socket {
    pub fd: Fd,
    pub inner: Arc<SocketInner>,
}

impl Clone for Socket {
    fn clone(&self) -> (socket: Self)
        ensures
            socket == *self,
    {
        Socket { fd: self.fd, inner: self.inner.clone() }
    }
}

/// The queue into which a socket's packets to send are put.
#[derive(Debug)]
pub struct TxQueue {
    pub ring: XskRingProd,
    pub socket: Socket,
}

/// The queue from which a socket's received packets are taken.
#[derive(Debug)]
pub struct RxQueue {
    pub ring: XskRingCons,
    pub socket: Socket,
}

/// The queue into which free frames of the UMEM are put.
#[derive(Debug)]
pub struct FillQueue {
    pub ring: XskRingProd,
    pub umem: Umem,
}

/// The queue from which sent frames of the UMEM are taken back.
#[derive(Debug)]
pub struct CompQueue {
    pub ring: XskRingCons,
    pub umem: Umem,
}

/// The arguments of `xsk_socket__create_shared`, but for the UMEM that it is called on.
#[derive(Clone, Copy, Debug)]
pub struct CreateRequest<'a> {
    pub if_name: &'a str,
    pub queue_id: u32,
    pub rx_q: XskRingCons,
    pub tx_q: XskRingProd,
    pub fq: XskRingProd,
    pub cq: XskRingCons,
    /// `fq` and `cq` are the rings that came with the UMEM, whose addresses libxdp knows.
    pub saved_queues: bool,
    pub config: SocketConfig,
}

/// What `xsk_socket__create_shared` returned, and what it left in its arguments.
/// `socket` is null where no socket was set.
#[derive(Clone, Copy, Debug, PartialEq, Eq, Structural)]
pub struct CreateReply {
    pub err: i32,
    pub socket: usize,
    pub rx_q: XskRingCons,
    pub tx_q: XskRingProd,
    pub fq: XskRingProd,
    pub cq: XskRingCons,
}

/// A socket whose creation is under way.
#[derive(Debug)]
pub struct SocketCreation {
    pub umem: Umem,
}

/// A socket that was created and whose descriptor is being asked for.
#[derive(Debug)]
pub struct CreatedSocket {
    pub umem: Umem,
    pub socket: XskSocket,
    pub rx_q: XskRingCons,
    pub tx_q: XskRingProd,
    pub fq: XskRingProd,
    pub cq: XskRingCons,
}

/// Why a socket that was created cannot be used. The socket is left to delete.
#[derive(Debug)]
pub struct CreateFailure {
    pub error: SocketCreateError,
    pub delete: XskSocket,
}

impl Socket {
    /// Starts to create a socket and bind it to a queue of an interface.
    ///
    /// The caller makes the call and hands its reply to [`SocketCreation::created`].
    /// The fill and completion rings that came with the UMEM go into the call, and
    /// are gone from the UMEM whatever comes of it.
    pub fn new<'a>(
        config: SocketConfig,
        umem: &mut UmemInner,
        if_name: &'a str,
        queue_id: u32,
    ) -> (started: (SocketCreation, CreateRequest<'a>))
        ensures
            started.0.umem == old(umem).umem,
            started.1.if_name == if_name,
            started.1.queue_id == queue_id,
            started.1.config == config,
            started.1.rx_q == XskRingCons::empty(),
            started.1.tx_q == XskRingProd::empty(),
            (started.1.fq, started.1.cq) == old(umem).offered_queues(),
            started.1.saved_queues == (old(umem).saved_fq_and_cq is Some),
            final(umem).umem == old(umem).umem,
            final(umem).saved_fq_and_cq is None,
            final(umem).restored_fc == old(umem).restored_fc,
    {
        let saved_queues = umem.saved_fq_and_cq.is_some();
        let (fq, cq) = umem.take_queues();
        let request = CreateRequest {
            if_name,
            queue_id,
            rx_q: XskRingCons::default(),
            tx_q: XskRingProd::default(),
            fq,
            cq,
            saved_queues,
            config,
        };
        (SocketCreation { umem: umem.umem.clone() }, request)
    }

    /// The message for a socket that libxdp does not know.
    pub open spec fn inherited_message() -> Seq<char> {
        "update_xskmap is not available on sockets reconstructed via from_raw_fd; the successor must update the XSKMAP by raw FD instead"@
    }

    /// Asks to enter this socket into the XSKMAP behind `map_fd`, the way libxdp does
    /// it. A socket rebuilt from an inherited descriptor cannot be entered this way.
    pub fn update_xskmap(&self, map_fd: i32) -> (result: Result<XskmapUpdate, String>)
        ensures
            match self.inner.owner {
                SocketOwner::Libxdp(socket) => result == Ok::<XskmapUpdate, String>(
                    XskmapUpdate { socket: socket.ptr, map_fd },
                ),
                SocketOwner::Inherited(_) => result matches Err(message) && message@
                    == Socket::inherited_message(),
            },
            result is Ok <==> self.inner.owner is Libxdp,
    {
        match &self.inner.owner {
            SocketOwner::Libxdp(socket) => Ok(XskmapUpdate { socket: socket.ptr, map_fd }),
            SocketOwner::Inherited(_) => Err(
                "update_xskmap is not available on sockets reconstructed via from_raw_fd; the successor must update the XSKMAP by raw FD instead".to_owned(),
            ),
        }
    }
}

/// The arguments of `xsk_socket__update_xskmap`.
#[derive(Clone, Copy, Debug, PartialEq, Eq, Structural)]
pub struct XskmapUpdate {
    pub socket: usize,
    pub map_fd: i32,
}

impl XskmapUpdate {
    /// The message for a call that returned `ret`.
    pub open spec fn failure_message(ret: i32) -> Seq<char> {
        "xsk_socket__update_xskmap failed: "@ + decimal(ret as int)
    }

    /// What came of the call, given what it returned.
    pub fn updated(self, ret: i32) -> (result: Result<(), String>)
        ensures
            ret >= 0 ==> result is Ok,
            ret < 0 ==> (result matches Err(message) && message@
                == XskmapUpdate::failure_message(ret)),
    {
        if ret < 0 {
            let mut message = "xsk_socket__update_xskmap failed: ".to_owned();
            append_decimal(&mut message, ret);
            return Err(message);
        }
        Ok(())
    }
}

/// The error for a libxdp call that returned `code`: error codes come back negated.
fn create_error(reason: &'static str, code: i32) -> (error: SocketCreateError)
    requires
        code != i32::MIN,
    ensures
        error.reason@ == reason@,
        error.err.code == -code,
{
    SocketCreateError { reason, err: OsError::from_raw_os_error(-code) }
}

impl SocketCreation {
    /// The socket that a successful reply stands for.
    pub open spec fn socket_from(self, reply: CreateReply) -> CreatedSocket {
        CreatedSocket {
            umem: self.umem,
            socket: XskSocket { ptr: reply.socket },
            rx_q: reply.rx_q,
            tx_q: reply.tx_q,
            fq: reply.fq,
            cq: reply.cq,
        }
    }

    /// Takes the reply to the call that creates the socket.
    pub fn created(self, reply: CreateReply) -> (result: Result<CreatedSocket, SocketCreateError>)
        requires
            reply.err != i32::MIN,
        ensures
            reply.err != 0 ==> (result matches Err(error) && error.says(
                "non-zero error code returned when creating AF_XDP socket"@,
                -reply.err,
            )),
            reply.err == 0 && reply.socket == 0 ==> (result matches Err(error) && error.says(
                "returned socket pointer was null"@,
                0,
            )),
            reply.err == 0 && reply.socket != 0 ==> (result matches Ok(created) && created
                == self.socket_from(reply)),
            result is Ok <==> reply.err == 0 && reply.socket != 0,
            result matches Err(error) ==> error.err.code == -reply.err,
            result matches Ok(created) ==> {
                &&& created.umem == self.umem
                &&& created.socket.ptr == reply.socket
                &&& created.rx_q == reply.rx_q
                &&& created.tx_q == reply.tx_q
                &&& created.fq == reply.fq
                &&& created.cq == reply.cq
            },
    {
        if reply.err != 0 {
            return Err(
                create_error(
                    "non-zero error code returned when creating AF_XDP socket",
                    reply.err,
                ),
            );
        }
        if reply.socket == 0 {
            return Err(create_error("returned socket pointer was null", reply.err));
        }
        Ok(
            CreatedSocket {
                umem: self.umem,
                socket: XskSocket::new(reply.socket),
                rx_q: reply.rx_q,
                tx_q: reply.tx_q,
                fq: reply.fq,
                cq: reply.cq,
            },
        )
    }
}

impl CreatedSocket {
    /// The error that a descriptor `fd` and the rings of this socket amount to, by its
    /// reason and its code. The first of the conditions that holds decides.
    pub open spec fn defect(self, fd: i32) -> Option<(Seq<char>, int)> {
        if fd < 0 {
            Some(("failed to retrieve AF_XDP socket file descriptor"@, -fd))
        } else if self.tx_q.ring == 0 {
            Some(("returned tx queue ring is null"@, 0))
        } else if self.rx_q.ring == 0 {
            Some(("returned rx queue ring is null"@, 0))
        } else if (self.fq.ring == 0) != (self.cq.ring == 0) {
            Some(
                (
                    "fill queue xor comp queue ring is null, either both or neither should be non-null"@,
                    0,
                ),
            )
        } else {
            None
        }
    }

    /// What a socket without a defect, whose descriptor is `fd`, comes to: the TX and RX
    /// queues over one socket, and the fill and completion queues unless their rings are
    /// null.
    pub open spec fn yields(
        self,
        fd: i32,
        queues: (TxQueue, RxQueue, Option<(FillQueue, CompQueue)>),
    ) -> bool {
        let (tx_q, rx_q, fq_and_cq) = queues;
        &&& tx_q.ring == self.tx_q
        &&& rx_q.ring == self.rx_q
        &&& tx_q.socket == rx_q.socket
        &&& tx_q.socket.fd.raw == fd
        &&& tx_q.socket.inner.owner == SocketOwner::Libxdp(self.socket)
        &&& tx_q.socket.inner.umem == self.umem
        &&& tx_q.socket.inner.rx_tx_mmaps@ == Seq::<RawMmap>::empty()
        &&& self.fq.ring == 0 ==> fq_and_cq is None
        &&& self.fq.ring != 0 ==> fq_and_cq == Some(
            (
                FillQueue { ring: self.fq, umem: self.umem },
                CompQueue { ring: self.cq, umem: self.umem },
            ),
        )
    }

    /// The address of the socket to call `xsk_socket__fd` on.
    pub fn request(&self) -> (socket: usize)
        ensures
            socket == self.socket.ptr,
    {
        self.socket.ptr
    }

    /// Takes the socket's descriptor, as `xsk_socket__fd` returned it.
    ///
    /// The fill and completion queues come with the socket unless the pair of interface
    /// and queue was bound already; libxdp then leaves both of their rings null.
    pub fn fetched(self, fd: i32) -> (result: Result<
        (TxQueue, RxQueue, Option<(FillQueue, CompQueue)>),
        CreateFailure,
    >)
        requires
            fd != i32::MIN,
        ensures
            self.defect(fd) matches Some(defect) ==> (result matches Err(failure)
                && failure.error.says(defect.0, defect.1) && failure.delete == self.socket),
            self.defect(fd) is None ==> (result matches Ok(queues) && self.yields(fd, queues)),
            result is Ok <==> fd >= 0 && self.tx_q.ring != 0 && self.rx_q.ring != 0 && (
            self.fq.ring == 0 <==> self.cq.ring == 0),
            result matches Err(failure) ==> failure.delete.ptr == self.socket.ptr
                && failure.error.err.code == (if fd < 0 {
                -fd
            } else {
                0
            }),
            result matches Ok(queues) ==> queues.0.ring == self.tx_q && queues.1.ring == self.rx_q
                && (queues.2 is Some <==> self.fq.ring != 0),
    {
        if fd < 0 {
            return Err(
                CreateFailure {
                    error: create_error("failed to retrieve AF_XDP socket file descriptor", fd),
                    delete: self.socket,
                },
            );
        }
        if self.tx_q.is_ring_null() {
            return Err(
                CreateFailure {
                    error: create_error("returned tx queue ring is null", 0),
                    delete: self.socket,
                },
            );
        }
        if self.rx_q.is_ring_null() {
            return Err(
                CreateFailure {
                    error: create_error("returned rx queue ring is null", 0),
                    delete: self.socket,
                },
            );
        }
        let fq_and_cq = match (self.fq.is_ring_null(), self.cq.is_ring_null()) {
            (true, true) => None,
            (false, false) => {
                let fq = FillQueue { ring: self.fq, umem: self.umem.clone() };
                let cq = CompQueue { ring: self.cq, umem: self.umem.clone() };
                Some((fq, cq))
            },
            _ => {
                return Err(
                    CreateFailure {
                        error: create_error(
                            "fill queue xor comp queue ring is null, either both or neither should be non-null",
                            0,
                        ),
                        delete: self.socket,
                    },
                );
            },
        };
        let socket = Socket {
            fd: Fd::new(fd),
            inner: Arc::new(SocketInner::new_libxdp(self.socket, self.umem)),
        };
        let tx_q = TxQueue { ring: self.tx_q, socket: socket.clone() };
        let rx_q = RxQueue { ring: self.rx_q, socket };
        Ok((tx_q, rx_q, fq_and_cq))
    }
}

} // verus!
