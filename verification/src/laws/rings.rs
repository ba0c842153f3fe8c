//! Laws of the rings.

use vstd::arithmetic::power2::{lemma_pow2_pos, pow2};
use vstd::bits::lemma_u32_low_bits_mask_is_mod;
use vstd::prelude::*;

use crate::ring::{ring_cons, ring_prod, wrapped, RingOffset, XskRingCons, XskRingProd};

verus! {

/// A producer ring shows as free exactly the entries that are not outstanding, also
/// where an index has wrapped around.
pub proof fn law_free_entries(
    base: usize,
    off: RingOffset,
    size: u32,
    producer: u32,
    consumer: u32,
)
    requires
        (producer - consumer) % 0x1_0000_0000 <= size,
    ensures
        ring_prod(base, off, size, producer, consumer).nb_free() == size - wrapped(
            producer - consumer,
        ),
        ({
            let ring = ring_prod(base, off, size, producer, consumer);
            &&& ring.cached_prod == producer
            &&& (ring.cached_cons - ring.cached_prod) % 0x1_0000_0000 == size - (producer
                - consumer) % 0x1_0000_0000
        }),
{
}

/// A consumer ring shows as available exactly the entries that were produced and not
/// consumed, also where an index has wrapped around.
pub proof fn law_available_entries(
    base: usize,
    off: RingOffset,
    size: u32,
    producer: u32,
    consumer: u32,
)
    ensures
        ring_cons(base, off, size, producer, consumer).nb_avail() == wrapped(producer - consumer),
        ({
            let ring = ring_cons(base, off, size, producer, consumer);
            &&& ring.cached_prod == producer
            &&& ring.cached_cons == consumer
            &&& (ring.cached_prod - ring.cached_cons) % 0x1_0000_0000 == (producer - consumer)
                % 0x1_0000_0000
        }),
{
}

/// A producer ring that is described with another size than it has miscounts its free
/// entries.
pub proof fn law_wrong_size_miscounts(
    base: usize,
    off: RingOffset,
    size: u32,
    wrong_size: u32,
    producer: u32,
    consumer: u32,
)
    requires
        wrapped(producer - consumer) <= size,
        wrong_size != size,
    ensures
        ring_prod(base, off, wrong_size, producer, consumer).nb_free() != size - wrapped(
            producer - consumer,
        ),
{
}

/// In a ring of `2^n` entries, masking an index gives the slot that it counts to.
pub proof fn law_mask_picks_slot(
    base: usize,
    off: RingOffset,
    size: u32,
    n: nat,
    producer: u32,
    consumer: u32,
    index: u32,
)
    requires
        n < 32,
        size == pow2(n),
    ensures
        index & ring_prod(base, off, size, producer, consumer).mask == index % size,
        index & ring_cons(base, off, size, producer, consumer).mask == index % size,
        index % size < size,
{
    lemma_pow2_pos(n);
    lemma_u32_low_bits_mask_is_mod(index, n);
}

/// Every address in a ring is the region's start plus the offset that the kernel reports
/// for that field, and the ring has the size that it is described with.
pub proof fn law_ring_lies_at_its_offsets(
    base: usize,
    off: RingOffset,
    size: u32,
    producer: u32,
    consumer: u32,
)
    requires
        size >= 1,
        base + off.producer <= usize::MAX,
        base + off.consumer <= usize::MAX,
        base + off.desc <= usize::MAX,
        base + off.flags <= usize::MAX,
    ensures
        ({
            let ring = ring_prod(base, off, size, producer, consumer);
            &&& ring.producer - base == off.producer
            &&& ring.consumer - base == off.consumer
            &&& ring.ring - base == off.desc
            &&& ring.flags - base == off.flags
            &&& ring.size == size
            &&& ring.mask + 1 == size
        }),
        ({
            let ring = ring_cons(base, off, size, producer, consumer);
            &&& ring.producer - base == off.producer
            &&& ring.consumer - base == off.consumer
            &&& ring.ring - base == off.desc
            &&& ring.flags - base == off.flags
            &&& ring.size == size
            &&& ring.mask + 1 == size
        }),
{
}

/// A ring can be reached exactly where the address of each of its fields is one.
pub proof fn law_reachable_ring_has_addresses(off: RingOffset, base: usize)
    ensures
        off.reachable_from(base) <==> base + off.producer <= usize::MAX && base + off.consumer
            <= usize::MAX && base + off.desc <= usize::MAX && base + off.flags <= usize::MAX,
{
}

/// A ring before anything was mapped has no entries, and all of its addresses are null.
pub proof fn law_empty_ring_is_null()
    ensures
        ({
            let ring = XskRingProd::empty();
            &&& ring.cached_prod == 0 && ring.cached_cons == 0 && ring.mask == 0 && ring.size == 0
            &&& ring.producer == 0 && ring.consumer == 0 && ring.ring == 0 && ring.flags == 0
        }),
        ({
            let ring = XskRingCons::empty();
            &&& ring.cached_prod == 0 && ring.cached_cons == 0 && ring.mask == 0 && ring.size == 0
            &&& ring.producer == 0 && ring.consumer == 0 && ring.ring == 0 && ring.flags == 0
        }),
{
}

} // verus!
