//! The rings that a process shares with the kernel.
//!
//! A ring lies in a region that the kernel maps. The kernel reports at which offsets
//! in the region the producer index, the consumer index, the flags and the
//! descriptors are. Here they are addresses, and the two indices that were read from
//! memory are handed in as values.

use vstd::prelude::*;

verus! {

/// A ring index counts entries and wraps around after 32 bits.
pub open spec fn wrapped(index: int) -> int {
    index % 0x1_0000_0000
}

/// Where a ring's fields lie in its region, as the kernel reports it.
#[derive(Clone, Copy, Debug, PartialEq, Eq, Structural)]
pub struct RingOffset {
    pub producer: u64,
    pub consumer: u64,
    pub desc: u64,
    pub flags: u64,
}

/// The offsets of the four rings of a socket: RX, TX, fill and completion.
#[derive(Clone, Copy, Debug, PartialEq, Eq, Structural)]
pub struct MmapOffsets {
    pub rx: RingOffset,
    pub tx: RingOffset,
    pub fr: RingOffset,
    pub cr: RingOffset,
}

impl RingOffset {
    /// Every field of a ring mapped at `base` has an address.
    pub open spec fn reachable_from(self, base: usize) -> bool {
        &&& base + self.producer <= usize::MAX
        &&& base + self.consumer <= usize::MAX
        &&& base + self.desc <= usize::MAX
        &&& base + self.flags <= usize::MAX
    }

    /// Whether every field of a ring mapped at `base` has an address.
    pub fn is_reachable_from(&self, base: usize) -> (reachable: bool)
        ensures
            reachable == self.reachable_from(base),
            reachable == (base + self.producer <= usize::MAX && base + self.consumer <= usize::MAX
                && base + self.desc <= usize::MAX && base + self.flags <= usize::MAX),
    {
        let room: u64 = (usize::MAX - base) as u64;
        self.producer <= room && self.consumer <= room && self.desc <= room && self.flags <= room
    }

    /// The address of the producer index of a ring mapped at `base`.
    pub fn producer_addr(&self, base: usize) -> (addr: usize)
        requires
            base + self.producer <= usize::MAX,
        ensures
            addr == base + self.producer,
    {
        base + self.producer as usize
    }

    /// The address of the consumer index of a ring mapped at `base`.
    pub fn consumer_addr(&self, base: usize) -> (addr: usize)
        requires
            base + self.consumer <= usize::MAX,
        ensures
            addr == base + self.consumer,
    {
        base + self.consumer as usize
    }
}

/// A ring into which this process puts entries: TX or fill.
#[derive(Clone, Copy, Debug, PartialEq, Eq, Structural)]
pub struct XskRingProd {
    pub cached_prod: u32,
    pub cached_cons: u32,
    pub mask: u32,
    pub size: u32,
    pub producer: usize,
    pub consumer: usize,
    pub ring: usize,
    pub flags: usize,
}

/// A ring from which this process takes entries: RX or completion.
#[derive(Clone, Copy, Debug, PartialEq, Eq, Structural)]
pub struct XskRingCons {
    pub cached_prod: u32,
    pub cached_cons: u32,
    pub mask: u32,
    pub size: u32,
    pub producer: usize,
    pub consumer: usize,
    pub ring: usize,
    pub flags: usize,
}

impl XskRingProd {
    /// The ring before anything was mapped: all fields zero, all addresses null.
    pub open spec fn empty() -> XskRingProd {
        XskRingProd {
            cached_prod: 0,
            cached_cons: 0,
            mask: 0,
            size: 0,
            producer: 0,
            consumer: 0,
            ring: 0,
            flags: 0,
        }
    }

    /// Whether the ring has no descriptors.
    pub fn is_ring_null(&self) -> (null: bool)
        ensures
            null == (self.ring == 0),
    {
        self.ring == 0
    }

    /// The free entries that the cached indices show.
    pub open spec fn nb_free(self) -> int {
        wrapped(self.cached_cons - self.cached_prod)
    }
}

impl Default for XskRingProd {
    fn default() -> (ring: Self)
        ensures
            ring == XskRingProd::empty(),
    {
        XskRingProd {
            cached_prod: 0,
            cached_cons: 0,
            mask: 0,
            size: 0,
            producer: 0,
            consumer: 0,
            ring: 0,
            flags: 0,
        }
    }
}

impl XskRingCons {
    /// The ring before anything was mapped: all fields zero, all addresses null.
    pub open spec fn empty() -> XskRingCons {
        XskRingCons {
            cached_prod: 0,
            cached_cons: 0,
            mask: 0,
            size: 0,
            producer: 0,
            consumer: 0,
            ring: 0,
            flags: 0,
        }
    }

    /// Whether the ring has no descriptors.
    pub fn is_ring_null(&self) -> (null: bool)
        ensures
            null == (self.ring == 0),
    {
        self.ring == 0
    }

    /// The available entries that the cached indices show.
    pub open spec fn nb_avail(self) -> int {
        wrapped(self.cached_prod - self.cached_cons)
    }
}

impl Default for XskRingCons {
    fn default() -> (ring: Self)
        ensures
            ring == XskRingCons::empty(),
    {
        XskRingCons {
            cached_prod: 0,
            cached_cons: 0,
            mask: 0,
            size: 0,
            producer: 0,
            consumer: 0,
            ring: 0,
            flags: 0,
        }
    }
}

/// The producer ring of `size` entries mapped at `base`, whose indices in memory are
/// `producer` and `consumer`. The cached consumer index runs `size` ahead of the one
/// in memory, so that subtracting the cached producer index gives the free entries.
pub open spec fn ring_prod(
    base: usize,
    off: RingOffset,
    size: u32,
    producer: u32,
    consumer: u32,
) -> XskRingProd {
    XskRingProd {
        cached_prod: producer,
        cached_cons: wrapped(consumer + size) as u32,
        mask: (size - 1) as u32,
        size,
        producer: (base + off.producer) as usize,
        consumer: (base + off.consumer) as usize,
        ring: (base + off.desc) as usize,
        flags: (base + off.flags) as usize,
    }
}

/// The consumer ring of `size` entries mapped at `base`, whose indices in memory are
/// `producer` and `consumer`.
pub open spec fn ring_cons(
    base: usize,
    off: RingOffset,
    size: u32,
    producer: u32,
    consumer: u32,
) -> XskRingCons {
    XskRingCons {
        cached_prod: producer,
        cached_cons: consumer,
        mask: (size - 1) as u32,
        size,
        producer: (base + off.producer) as usize,
        consumer: (base + off.consumer) as usize,
        ring: (base + off.desc) as usize,
        flags: (base + off.flags) as usize,
    }
}

/// Describes the producer ring mapped at `base`. `producer` and `consumer` are the
/// indices read at [`RingOffset::producer_addr`] and [`RingOffset::consumer_addr`].
pub fn build_ring_prod(
    base: usize,
    off: &RingOffset,
    size: u32,
    producer: u32,
    consumer: u32,
) -> (ring: XskRingProd)
    requires
        size >= 1,
        off.reachable_from(base),
    ensures
        ring == ring_prod(base, *off, size, producer, consumer),
        ring.cached_prod == producer,
        (ring.cached_cons - consumer) % 0x1_0000_0000 == size,
        ring.size == size,
        ring.mask + 1 == size,
        ring.producer - off.producer == base,
        ring.consumer - off.consumer == base,
        ring.ring - off.desc == base,
        ring.flags - off.flags == base,
{
    XskRingProd {
        cached_prod: producer,
        cached_cons: consumer.wrapping_add(size),
        mask: size - 1,
        size,
        producer: off.producer_addr(base),
        consumer: off.consumer_addr(base),
        ring: base + off.desc as usize,
        flags: base + off.flags as usize,
    }
}

/// Describes the consumer ring mapped at `base`. `producer` and `consumer` are the
/// indices read at [`RingOffset::producer_addr`] and [`RingOffset::consumer_addr`].
pub fn build_ring_cons(
    base: usize,
    off: &RingOffset,
    size: u32,
    producer: u32,
    consumer: u32,
) -> (ring: XskRingCons)
    requires
        size >= 1,
        off.reachable_from(base),
    ensures
        ring == ring_cons(base, *off, size, producer, consumer),
        ring.cached_prod == producer,
        ring.cached_cons == consumer,
        ring.size == size,
        ring.mask + 1 == size,
        ring.producer - off.producer == base,
        ring.consumer - off.consumer == base,
        ring.ring - off.desc == base,
        ring.flags - off.flags == base,
{
    XskRingCons {
        cached_prod: producer,
        cached_cons: consumer,
        mask: size - 1,
        size,
        producer: off.producer_addr(base),
        consumer: off.consumer_addr(base),
        ring: base + off.desc as usize,
        flags: base + off.flags as usize,
    }
}

} // verus!
