//! The UMEM: the memory that holds packet frames, and the state that sockets share
//! through it.

use std::sync::Arc;
use vstd::prelude::*;

use crate::mmap::{Mmap, MmapState};
use crate::os::{append_unmap_steps, unmap_steps, OwnedFd, RawMmap, Release};
use crate::ring::{XskRingCons, XskRingProd};

verus! {

/// How a UMEM is cut into frames. All sizes are in bytes.
#[derive(Clone, Copy, Debug, PartialEq, Eq, Structural)]
pub struct UmemConfig {
    pub frame_size: u32,
    /// Room at the start of each frame that is kept for XDP programs.
    pub xdp_headroom: u32,
    /// Room between the XDP headroom and the data that is kept for the user.
    pub frame_headroom: u32,
}

impl UmemConfig {
    /// The headroom leaves room for data in a frame.
    pub open spec fn valid(self) -> bool {
        self.xdp_headroom + self.frame_headroom < self.frame_size
    }

    /// The bytes that `frame_count` frames take.
    pub open spec fn umem_len(self, frame_count: u32) -> int {
        self.frame_size * frame_count
    }

    /// Where the data of frame `i` starts, counted from the start of the UMEM.
    pub open spec fn data_addr(self, i: int) -> int {
        i * self.frame_size + self.xdp_headroom + self.frame_headroom
    }

    /// The layout of `frame_count` frames can be addressed.
    pub open spec fn addressable(self, frame_count: u32) -> bool {
        self.umem_len(frame_count) + self.xdp_headroom + self.frame_headroom <= usize::MAX
    }
}

/// How many bytes of a frame are in use.
#[derive(Clone, Copy, Debug, PartialEq, Eq, Structural)]
pub struct SegmentLengths {
    pub headroom: usize,
    pub data: usize,
}

/// A frame of the UMEM: where its data starts and how much of it is in use.
#[derive(Clone, Copy, Debug, PartialEq, Eq, Structural)]
pub struct FrameDesc {
    pub addr: usize,
    pub lengths: SegmentLengths,
}

impl FrameDesc {
    pub fn addr(&self) -> (addr: usize)
        ensures
            addr == self.addr,
    {
        self.addr
    }

    pub fn lengths(&self) -> (lengths: SegmentLengths)
        ensures
            lengths == self.lengths,
    {
        self.lengths
    }
}

/// A handle to the UMEM. Handles are cloned freely and share one memory region.
#[derive(Debug)]
pub struct Umem {
    pub mem: Arc<Mmap>,
}

impl Clone for Umem {
    fn clone(&self) -> (umem: Self)
        ensures
            umem == *self,
    {
        Umem { mem: self.mem.clone() }
    }
}

impl Umem {
    /// Starts to rebuild a UMEM on an inherited memfd: maps as much of it as
    /// `frame_count` frames take.
    pub fn from_memfd(config: UmemConfig, frame_count: u32, memfd: OwnedFd) -> (state: MmapState)
        requires
            config.umem_len(frame_count) <= usize::MAX,
        ensures
            state == (MmapState::Inspecting {
                fd: memfd,
                len: config.umem_len(frame_count) as usize,
            }),
            state matches MmapState::Inspecting { fd, len } && fd == memfd && len
                == config.frame_size * frame_count,
    {
        let len: usize = config.frame_size as usize * frame_count as usize;
        Mmap::from_fd(memfd, len)
    }

    /// The UMEM over a mapped region, with the descriptors of its frames, all of them
    /// unused.
    pub fn from_mmap(config: UmemConfig, frame_count: u32, mem: Mmap) -> (umem: (
        Umem,
        Vec<FrameDesc>,
    ))
        requires
            config.addressable(frame_count),
        ensures
            *umem.0.mem == mem,
            umem.1@.len() == frame_count,
            forall|i: int|
                0 <= i < frame_count ==> (#[trigger] umem.1@[i]).addr == config.data_addr(i)
                    && umem.1@[i].lengths == (SegmentLengths { headroom: 0, data: 0 }),
            forall|i: int|
                0 <= i < frame_count ==> (#[trigger] umem.1@[i]).addr - i * config.frame_size
                    == config.xdp_headroom + config.frame_headroom,
    {
        let mut descs: Vec<FrameDesc> = Vec::new();
        let mut i: u32 = 0;
        while i < frame_count
            invariant
                i <= frame_count,
                config.addressable(frame_count),
                descs@.len() == i,
                forall|j: int|
                    0 <= j < i ==> (#[trigger] descs@[j]).addr == config.data_addr(j)
                        && descs@[j].lengths == (SegmentLengths { headroom: 0, data: 0 }),
            decreases frame_count - i,
        {
            assert(i * config.frame_size <= frame_count * config.frame_size) by (nonlinear_arith)
                requires
                    i <= frame_count,
            ;
            assert(frame_count * config.frame_size == config.frame_size * frame_count)
                by (nonlinear_arith);
            let start: usize = i as usize * config.frame_size as usize;
            let addr: usize = start + config.xdp_headroom as usize + config.frame_headroom as usize;
            descs.push(FrameDesc { addr, lengths: SegmentLengths { headroom: 0, data: 0 } });
            i = i + 1;
        }
        (Umem { mem: Arc::new(mem) }, descs)
    }
}

/// What the handles of a UMEM share, and what sockets change in it. It lives until the
/// last handle is gone.
#[derive(Debug)]
pub struct UmemInner {
    /// The handle that sockets and queues on this UMEM hold clones of.
    pub umem: Umem,
    /// The fill and completion rings that came with the UMEM. The first socket takes
    /// them.
    pub saved_fq_and_cq: Option<(XskRingProd, XskRingCons)>,
    /// Fill and completion ring regions that were mapped for inherited sockets. They
    /// outlive every queue that points into them.
    pub restored_fc: Vec<RawMmap>,
}

impl UmemInner {
    /// The rings that the next socket is created with: those that came with the UMEM,
    /// or empty ones where they are taken already.
    pub open spec fn offered_queues(self) -> (XskRingProd, XskRingCons) {
        match self.saved_fq_and_cq {
            Some(queues) => queues,
            None => (XskRingProd::empty(), XskRingCons::empty()),
        }
    }

    /// Takes the rings that the next socket is created with.
    pub fn take_queues(&mut self) -> (queues: (XskRingProd, XskRingCons))
        ensures
            queues == old(self).offered_queues(),
            old(self).saved_fq_and_cq matches Some(saved) ==> queues == saved,
            old(self).saved_fq_and_cq is None ==> queues.0.ring == 0 && queues.1.ring == 0,
            final(self).umem == old(self).umem,
            final(self).saved_fq_and_cq is None,
            final(self).restored_fc == old(self).restored_fc,
    {
        match self.saved_fq_and_cq.take() {
            Some(queues) => queues,
            None => (XskRingProd::default(), XskRingCons::default()),
        }
    }

    /// Hands over a ring region, to be kept for as long as the UMEM.
    pub fn attach_restored_fc(&mut self, addr: usize, len: usize)
        ensures
            final(self).umem == old(self).umem,
            final(self).restored_fc@ == old(self).restored_fc@.push(RawMmap { addr, len }),
            final(self).saved_fq_and_cq == old(self).saved_fq_and_cq,
    {
        self.restored_fc.push(RawMmap { addr, len });
    }

    /// Every ring region that was handed over is unmapped once, in order.
    pub open spec fn release_steps(self) -> Seq<Release> {
        unmap_steps(self.restored_fc@)
    }

    /// How to give up the ring regions once the last handle of the UMEM is gone.
    pub fn release(&self) -> (steps: Vec<Release>)
        ensures
            steps@ == self.release_steps(),
    {
        let mut steps: Vec<Release> = Vec::new();
        append_unmap_steps(&mut steps, &self.restored_fc);
        assert(steps@ =~= self.release_steps());
        steps
    }
}

} // verus!
