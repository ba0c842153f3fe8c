//! Laws of mapping a memfd.

use vstd::prelude::*;

use crate::mmap::{Mmap, MmapCall, MmapFailure, MmapReply, MmapState, MmapStep};
use crate::os::{OsError, OwnedFd, RawMmap, Release};

verus! {

/// Where a mapping in the making is after a sequence of replies. Replies after its end
/// have no effect.
pub open spec fn run(state: MmapState, replies: Seq<MmapReply>) -> MmapStep
    decreases replies.len(),
{
    if replies.len() == 0 {
        MmapStep::Next(state)
    } else {
        match state.after(replies[0]) {
            MmapStep::Next(next) => run(next, replies.skip(1)),
            end => end,
        }
    }
}

/// `fd` is held in exactly one place: by the mapping in the making, by the mapping, or
/// by the failure that hands it back.
pub open spec fn owns(step: MmapStep, fd: OwnedFd) -> bool {
    match step {
        MmapStep::Next(MmapState::Creating { .. }) => false,
        MmapStep::Next(MmapState::Sizing { fd: held, .. }) => held == fd,
        MmapStep::Next(MmapState::Inspecting { fd: held, .. }) => held == fd,
        MmapStep::Next(MmapState::Identifying { fd: held, .. }) => held == fd,
        MmapStep::Next(MmapState::Mapping { fd: held, .. }) => held == fd,
        MmapStep::Ready(mmap) => mmap.fd == fd,
        MmapStep::Failed(failure) => failure.close == Some(fd),
    }
}

/// Once a memfd is open it always has exactly one owner, whatever the replies are: it
/// never leaks, and it is never closed twice.
pub proof fn law_memfd_has_one_owner(state: MmapState, fd: OwnedFd, replies: Seq<MmapReply>)
    requires
        owns(MmapStep::Next(state), fd),
    ensures
        owns(run(state, replies), fd),
    decreases replies.len(),
{
    if replies.len() > 0 {
        match state.after(replies[0]) {
            MmapStep::Next(next) => law_memfd_has_one_owner(next, fd, replies.skip(1)),
            _ => {},
        }
    }
}

/// An existing memfd is adopted: it is closed when the mapping is given up, after the
/// region is unmapped, and it is handed back where no mapping comes about.
pub proof fn law_from_fd_adopts(fd: OwnedFd, len: usize, replies: Seq<MmapReply>)
    ensures
        match run(MmapState::Inspecting { fd, len }, replies) {
            MmapStep::Next(_) => true,
            MmapStep::Ready(mmap) => mmap.release_steps() == seq![
                Release::Unmap { region: RawMmap { addr: mmap.addr, len: mmap.len } },
                Release::CloseFd { fd: fd.raw },
            ],
            MmapStep::Failed(failure) => failure.close == Some(fd),
        },
{
    law_memfd_has_one_owner(MmapState::Inspecting { fd, len }, fd, replies);
}

/// A memfd that was created belongs to what comes of it; where none was created there
/// is nothing to close.
pub proof fn law_new_owns_the_memfd_it_creates(
    len: usize,
    use_huge_pages: bool,
    raw_fd: i32,
    errno: i32,
    replies: Seq<MmapReply>,
)
    ensures
        raw_fd >= 0 ==> owns(
            run(
                MmapState::Creating { len, use_huge_pages },
                seq![MmapReply::MemfdCreate { raw_fd, errno }] + replies,
            ),
            OwnedFd { raw: raw_fd },
        ),
        raw_fd < 0 ==> run(
            MmapState::Creating { len, use_huge_pages },
            seq![MmapReply::MemfdCreate { raw_fd, errno }] + replies,
        ) == MmapStep::Failed(MmapFailure { err: OsError { code: errno }, close: None }),
{
    let start = MmapState::Creating { len, use_huge_pages };
    let reply = MmapReply::MemfdCreate { raw_fd, errno };
    assert((seq![reply] + replies).skip(1) =~= replies);
    if raw_fd >= 0 {
        let next = start.after(reply)->Next_0;
        law_memfd_has_one_owner(next, OwnedFd { raw: raw_fd }, replies);
    }
}

/// The length that a mapping in the making is about.
pub open spec fn wanted_len(state: MmapState) -> usize {
    match state {
        MmapState::Creating { len, .. } => len,
        MmapState::Sizing { len, .. } => len,
        MmapState::Inspecting { len, .. } => len,
        MmapState::Identifying { len, .. } => len,
        MmapState::Mapping { len, .. } => len,
    }
}

/// A mapping has the length that was asked for, and so does every call on the way.
pub proof fn law_mapping_has_the_wanted_len(state: MmapState, replies: Seq<MmapReply>)
    ensures
        match run(state, replies) {
            MmapStep::Next(next) => wanted_len(next) == wanted_len(state),
            MmapStep::Ready(mmap) => mmap.len == wanted_len(state),
            MmapStep::Failed(_) => true,
        },
    decreases replies.len(),
{
    if replies.len() > 0 {
        match state.after(replies[0]) {
            MmapStep::Next(next) => law_mapping_has_the_wanted_len(next, replies.skip(1)),
            _ => {},
        }
    }
}

/// `reply` says that the memfd holds a mapping of `len` bytes, or that mapping it will
/// make it hold one.
pub open spec fn vouches(reply: MmapReply, len: usize) -> bool {
    match reply {
        MmapReply::Fstat { rc, size, .. } => rc == 0 && size >= len,
        MmapReply::Fstatfs { rc, f_type, .. } => rc == 0 && f_type == 0x9584_58f6,
        _ => false,
    }
}

/// A memfd on regular pages whose reported size is below the wanted length is never
/// mapped, whatever the order of the replies: no run that saw only sizes below `len`, and
/// no file system of huge pages, ends in a mapping or comes to ask for one.
pub proof fn law_undersized_memfd_is_never_mapped(
    state: MmapState,
    len: usize,
    replies: Seq<MmapReply>,
)
    requires
        state matches MmapState::Inspecting { fd, len: wanted } ==> wanted == len,
        state matches MmapState::Identifying { fd, len: wanted } ==> wanted == len,
        state is Inspecting || state is Identifying,
        forall|i: int|
            0 <= i < replies.len() ==> (#[trigger] replies[i] matches MmapReply::Fstat {
                rc,
                size,
                errno,
            } ==> rc != 0 || size < len),
        forall|i: int|
            0 <= i < replies.len() ==> (#[trigger] replies[i] matches MmapReply::Fstatfs {
                rc,
                f_type,
                errno,
            } ==> rc != 0 || f_type != 0x9584_58f6),
    ensures
        !(run(state, replies) is Ready),
        run(state, replies) matches MmapStep::Next(next) ==> (next is Inspecting
            || next is Identifying) && forall|call: MmapCall| #[trigger]
            next.requests(call) ==> !(call is Mmap),
    decreases replies.len(),
{
    if replies.len() > 0 {
        let reply = replies[0];
        assert(reply matches MmapReply::Fstat { rc, size, errno } ==> rc != 0 || size < len);
        assert(reply matches MmapReply::Fstatfs { rc, f_type, errno } ==> rc != 0 || f_type
            != 0x9584_58f6);
        let rest = replies.skip(1);
        assert forall|i: int| 0 <= i < rest.len() implies (
        #[trigger] rest[i] matches MmapReply::Fstat { rc, size, errno } ==> rc != 0 || size
            < len) by {
            assert(rest[i] == replies[i + 1]);
        }
        assert forall|i: int| 0 <= i < rest.len() implies (
        #[trigger] rest[i] matches MmapReply::Fstatfs { rc, f_type, errno } ==> rc != 0 || f_type
            != 0x9584_58f6) by {
            assert(rest[i] == replies[i + 1]);
        }
        match state.after(reply) {
            MmapStep::Next(next) => law_undersized_memfd_is_never_mapped(next, len, rest),
            _ => {},
        }
    }
}

/// An existing memfd is mapped only on the word of some reply.
pub proof fn law_mapped_memfd_was_vouched_for(fd: OwnedFd, len: usize, replies: Seq<MmapReply>)
    requires
        run(MmapState::Inspecting { fd, len }, replies) is Ready,
    ensures
        exists|i: int| 0 <= i < replies.len() && vouches(#[trigger] replies[i], len),
{
    if forall|i: int| 0 <= i < replies.len() ==> !vouches(#[trigger] replies[i], len) {
        assert forall|i: int| 0 <= i < replies.len() implies (
        #[trigger] replies[i] matches MmapReply::Fstat { rc, size, errno } ==> rc != 0 || size
            < len) by {
            assert(!vouches(replies[i], len));
        }
        assert forall|i: int| 0 <= i < replies.len() implies (
        #[trigger] replies[i] matches MmapReply::Fstatfs { rc, f_type, errno } ==> rc != 0
            || f_type != 0x9584_58f6) by {
            assert(!vouches(replies[i], len));
        }
        law_undersized_memfd_is_never_mapped(MmapState::Inspecting { fd, len }, len, replies);
    }
}

/// A memfd that is too short is refused, and handed back to be closed, with the error for
/// an invalid argument where its file system does not give it the size it lacks.
pub proof fn law_short_memfd_is_refused(
    fd: OwnedFd,
    len: usize,
    size: libc::off_t,
    f_type: u32,
    errno: i32,
)
    requires
        size < len,
        f_type != 0x9584_58f6,
    ensures
        run(
            MmapState::Inspecting { fd, len },
            seq![
                MmapReply::Fstat { rc: 0, size, errno },
                MmapReply::Fstatfs { rc: 0, f_type, errno },
            ],
        ) matches MmapStep::Failed(failure) && failure.err.code == 22 && failure.close == Some(fd),
{
    reveal_with_fuel(run, 3);
}

/// A new memfd on regular pages is not mapped before it was given its size.
pub proof fn law_regular_memfd_is_sized_first(state: MmapState, replies: Seq<MmapReply>)
    requires
        state is Sizing || (state matches MmapState::Creating { len, use_huge_pages }
            && !use_huge_pages),
        forall|i: int|
            0 <= i < replies.len() ==> !(#[trigger] replies[i] matches MmapReply::Ftruncate {
                rc,
                errno,
            } && rc == 0),
    ensures
        !(run(state, replies) is Ready),
        run(state, replies) matches MmapStep::Next(next) ==> !(next is Mapping),
    decreases replies.len(),
{
    if replies.len() > 0 {
        assert(!(replies[0] matches MmapReply::Ftruncate { rc, errno } && rc == 0));
        assert forall|i: int| 0 <= i < replies.skip(1).len() implies !(#[trigger] replies.skip(
            1,
        )[i] matches MmapReply::Ftruncate { rc, errno } && rc == 0) by {
            assert(replies.skip(1)[i] == replies[i + 1]);
        }
        match state.after(replies[0]) {
            MmapStep::Next(next) => law_regular_memfd_is_sized_first(next, replies.skip(1)),
            _ => {},
        }
    }
}

/// A new memfd on huge pages is never given a size: it would refuse.
pub proof fn law_huge_memfd_is_never_sized(state: MmapState, replies: Seq<MmapReply>)
    requires
        state is Mapping || (state matches MmapState::Creating { len, use_huge_pages }
            && use_huge_pages),
    ensures
        run(state, replies) matches MmapStep::Next(next) ==> !(next is Sizing) && forall|
            call: MmapCall,
        | #[trigger]
            next.requests(call) ==> !(call is Ftruncate),
    decreases replies.len(),
{
    if replies.len() > 0 {
        match state.after(replies[0]) {
            MmapStep::Next(next) => law_huge_memfd_is_never_sized(next, replies.skip(1)),
            _ => {},
        }
    }
}

/// The replies that [`Mmap::new`] meets where the memfd is created as `raw_fd` and, on
/// regular pages, given its size: the last of them is `mapped`.
pub open spec fn new_replies(
    use_huge_pages: bool,
    raw_fd: i32,
    errno: i32,
    mapped: MmapReply,
) -> Seq<MmapReply> {
    let created = MmapReply::MemfdCreate { raw_fd, errno };
    if use_huge_pages {
        seq![created, mapped]
    } else {
        seq![created, MmapReply::Ftruncate { rc: 0, errno }, mapped]
    }
}

/// Where every call succeeds, a new memfd comes to be mapped.
pub proof fn law_new_succeeds(
    len: usize,
    use_huge_pages: bool,
    raw_fd: i32,
    addr: usize,
    errno: i32,
)
    requires
        raw_fd >= 0,
        addr != usize::MAX,
    ensures
        run(
            MmapState::Creating { len, use_huge_pages },
            new_replies(use_huge_pages, raw_fd, errno, MmapReply::Mmap { addr, errno }),
        ) == MmapStep::Ready(Mmap { addr, len, fd: OwnedFd { raw: raw_fd } }),
{
    reveal_with_fuel(run, 4);
}

/// Where every call succeeds and the memfd is long enough, it comes to be mapped.
pub proof fn law_from_fd_succeeds(
    fd: OwnedFd,
    len: usize,
    size: libc::off_t,
    addr: usize,
    errno: i32,
)
    requires
        size >= len,
        addr != usize::MAX,
    ensures
        run(
            MmapState::Inspecting { fd, len },
            seq![MmapReply::Fstat { rc: 0, size, errno }, MmapReply::Mmap { addr, errno }],
        ) == MmapStep::Ready(Mmap { addr, len, fd }),
{
    reveal_with_fuel(run, 3);
}

/// Creating a memfd ends as adopting it does: for every outcome of the `mmap` call the
/// two come to the same step, by the same call, where the memfd was created and sized and
/// is found to hold the wanted length.
pub proof fn law_new_ends_as_from_fd(
    len: usize,
    use_huge_pages: bool,
    raw_fd: i32,
    size: libc::off_t,
    addr: usize,
    errno: i32,
)
    requires
        raw_fd >= 0,
        size >= len,
    ensures
        ({
            let created = MmapState::Creating { len, use_huge_pages };
            let adopted = MmapState::Inspecting { fd: OwnedFd { raw: raw_fd }, len };
            let inspected = MmapReply::Fstat { rc: 0, size, errno };
            let mapped = MmapReply::Mmap { addr, errno };
            let replies = new_replies(use_huge_pages, raw_fd, errno, mapped);
            &&& run(created, replies) == run(adopted, seq![inspected, mapped])
            &&& run(created, replies.drop_last()) == run(adopted, seq![inspected])
        }),
{
    reveal_with_fuel(run, 4);
}

/// Whatever the replies were that led [`Mmap::new`] to a mapping, [`Mmap::from_fd`] on the
/// memfd behind it leads to the same mapping, where the kernel maps it at the same address.
pub proof fn law_new_mapping_is_a_from_fd_mapping(
    len: usize,
    use_huge_pages: bool,
    replies: Seq<MmapReply>,
    mmap: Mmap,
    size: libc::off_t,
    errno: i32,
)
    requires
        run(MmapState::Creating { len, use_huge_pages }, replies) == MmapStep::Ready(mmap),
        size >= len,
    ensures
        run(
            MmapState::Inspecting { fd: mmap.fd, len },
            seq![
                MmapReply::Fstat { rc: 0, size, errno },
                MmapReply::Mmap { addr: mmap.addr, errno },
            ],
        ) == MmapStep::Ready(mmap),
{
    law_mapping_has_the_wanted_len(MmapState::Creating { len, use_huge_pages }, replies);
    lemma_mapping_did_not_fail(MmapState::Creating { len, use_huge_pages }, replies);
    law_from_fd_succeeds(mmap.fd, len, size, mmap.addr, errno);
}

proof fn lemma_mapping_did_not_fail(state: MmapState, replies: Seq<MmapReply>)
    ensures
        run(state, replies) matches MmapStep::Ready(mmap) ==> mmap.addr != usize::MAX,
    decreases replies.len(),
{
    if replies.len() > 0 {
        match state.after(replies[0]) {
            MmapStep::Next(next) => lemma_mapping_did_not_fail(next, replies.skip(1)),
            _ => {},
        }
    }
}

/// Creating ends as adopting also for a memfd on huge pages that nobody has mapped yet,
/// and that has no size for that reason.
pub proof fn law_new_on_huge_pages_ends_as_from_fd(
    len: usize,
    raw_fd: i32,
    size: libc::off_t,
    f_type: u32,
    addr: usize,
    errno: i32,
)
    requires
        raw_fd >= 0,
        size < len,
        f_type == 0x9584_58f6,
    ensures
        ({
            let created = MmapState::Creating { len, use_huge_pages: true };
            let adopted = MmapState::Inspecting { fd: OwnedFd { raw: raw_fd }, len };
            let inspected = MmapReply::Fstat { rc: 0, size, errno };
            let identified = MmapReply::Fstatfs { rc: 0, f_type, errno };
            let mapped = MmapReply::Mmap { addr, errno };
            let replies = new_replies(true, raw_fd, errno, mapped);
            &&& run(created, replies) == run(adopted, seq![inspected, identified, mapped])
            &&& run(created, replies.drop_last()) == run(adopted, seq![inspected, identified])
        }),
{
    reveal_with_fuel(run, 4);
}

/// A mapping has a real address: neither null nor the one that stands for failure.
pub proof fn law_mapping_has_an_address(state: MmapState, replies: Seq<MmapReply>)
    requires
        forall|i: int|
            0 <= i < replies.len() ==> !(#[trigger] replies[i] matches MmapReply::Mmap {
                addr,
                errno,
            } && addr == 0),
    ensures
        run(state, replies) matches MmapStep::Ready(mmap) ==> mmap.addr != 0 && mmap.addr
            != usize::MAX,
    decreases replies.len(),
{
    if replies.len() > 0 {
        assert(!(replies[0] matches MmapReply::Mmap { addr, errno } && addr == 0));
        assert forall|i: int| 0 <= i < replies.skip(1).len() implies !(#[trigger] replies.skip(
            1,
        )[i] matches MmapReply::Mmap { addr, errno } && addr == 0) by {
            assert(replies.skip(1)[i] == replies[i + 1]);
        }
        match state.after(replies[0]) {
            MmapStep::Next(next) => law_mapping_has_an_address(next, replies.skip(1)),
            _ => {},
        }
    }
}

/// Every mapping of a memfd starts at its beginning, has the wanted length and is shared:
/// what one process writes, every other process that maps the same memfd reads. Its pages
/// can be read and written and are all populated up front.
pub proof fn law_memfd_mapping_is_shared(state: MmapState, call: MmapCall)
    requires
        state.requests(call),
    ensures
        call matches MmapCall::Mmap(request) ==> {
            &&& request.flags & 0x1 == 0x1
            &&& request.flags & 0x1_8000 != 0
            &&& request.prot & 0x1 == 0x1
            &&& request.prot & 0x2 == 0x2
            &&& request.prot & 0x4 == 0
            &&& request.offset == 0
            &&& request.len == wanted_len(state)
            &&& state matches MmapState::Mapping { fd, len } && request.fd == fd.raw
                && request.len == len
        },
{
    assert(0x8001i32 & 0x1 == 0x1) by (bit_vector);
    assert(0x1_0001i32 & 0x1 == 0x1) by (bit_vector);
    assert(0x8001i32 & 0x1_8000 != 0) by (bit_vector);
    assert(0x1_0001i32 & 0x1_8000 != 0) by (bit_vector);
    assert(3i32 & 0x1 == 0x1 && 3i32 & 0x2 == 0x2 && 3i32 & 0x4 == 0) by (bit_vector);
}

/// A new memfd is created under its name in `/proc`, is closed on `exec`, and is on huge
/// pages exactly where they were asked for. No other flag is set.
pub proof fn law_memfd_is_created_as_asked(len: usize, use_huge_pages: bool, call: MmapCall)
    requires
        (MmapState::Creating { len, use_huge_pages }).requests(call),
    ensures
        call matches MmapCall::MemfdCreate { name, flags } && {
            &&& name@ == "xsk-rs-umem"@
            &&& flags & 0x1 == 0x1
            &&& (flags & 0x4 == 0x4) == use_huge_pages
            &&& flags & 0xffff_fffa == 0
        },
{
    assert(1u32 & 0x1 == 0x1 && 1u32 & 0x4 == 0 && 1u32 & 0xffff_fffa == 0) by (bit_vector);
    assert(5u32 & 0x1 == 0x1 && 5u32 & 0x4 == 0x4 && 5u32 & 0xffff_fffa == 0) by (bit_vector);
}

/// A new memfd on regular pages is given the size that is later mapped. In every state that
/// is reached from the start, the size that is asked for is the length that was wanted, and
/// so is the length of the mapping that is asked for. (A length beyond the range of file
/// sizes is converted to one, and the kernel refuses it.)
pub proof fn law_memfd_gets_the_wanted_size(
    len: usize,
    use_huge_pages: bool,
    replies: Seq<MmapReply>,
    state: MmapState,
    call: MmapCall,
)
    requires
        run(MmapState::Creating { len, use_huge_pages }, replies) == MmapStep::Next(state),
        state.requests(call),
    ensures
        call matches MmapCall::Ftruncate { fd, len: size } ==> size == len as libc::off_t && (len
            <= 0x7fff_ffff_ffff_ffff ==> size as int == len as int),
        call matches MmapCall::Mmap(request) ==> request.len == len,
{
    law_mapping_has_the_wanted_len(MmapState::Creating { len, use_huge_pages }, replies);
}

/// The size that a memfd is given and the length of the mapping that follows on success are
/// the same number, and both calls are on the same memfd.
pub proof fn law_size_given_is_the_length_mapped(
    state: MmapState,
    fd: i32,
    size: libc::off_t,
    errno: i32,
    next: MmapState,
    call: MmapCall,
)
    requires
        state.requests(MmapCall::Ftruncate { fd, len: size }),
        state.after(MmapReply::Ftruncate { rc: 0, errno }) == MmapStep::Next(next),
        next.requests(call),
    ensures
        call matches MmapCall::Mmap(request) && request.fd == fd && (request.len
            <= 0x7fff_ffff_ffff_ffff ==> request.len as int == size as int),
{
}

/// Every call that is made while a memfd is held is on that memfd.
pub proof fn law_calls_are_on_the_memfd(
    state: MmapState,
    fd: OwnedFd,
    replies: Seq<MmapReply>,
    next: MmapState,
    call: MmapCall,
)
    requires
        owns(MmapStep::Next(state), fd),
        run(state, replies) == MmapStep::Next(next),
        next.requests(call),
    ensures
        match call {
            MmapCall::MemfdCreate { .. } => false,
            MmapCall::Ftruncate { fd: raw, .. } => raw == fd.raw,
            MmapCall::Fstat { fd: raw } => raw == fd.raw,
            MmapCall::Fstatfs { fd: raw } => raw == fd.raw,
            MmapCall::Mmap(request) => request.fd == fd.raw,
        },
{
    law_memfd_has_one_owner(state, fd, replies);
}

/// Each state waits for one kind of call.
pub proof fn law_each_state_makes_its_call(state: MmapState, call: MmapCall)
    requires
        state.requests(call),
    ensures
        call is MemfdCreate <==> state is Creating,
        call is Ftruncate <==> state is Sizing,
        call is Fstat <==> state is Inspecting,
        call is Fstatfs <==> state is Identifying,
        call is Mmap <==> state is Mapping,
{
}

/// A reply ends the attempt exactly where it tells of a failed call, or of a short file that
/// is not on huge pages. The error is the one that the call left behind, and for a short
/// file the one for an invalid argument. An open memfd is handed back with it.
pub proof fn law_failures_tell_their_cause(state: MmapState, reply: MmapReply)
    ensures
        match (state, reply) {
            (MmapState::Creating { .. }, MmapReply::MemfdCreate { raw_fd, errno }) => {
                &&& state.after(reply) is Failed <==> raw_fd < 0
                &&& state.after(reply) matches MmapStep::Failed(failure) ==> failure.err.code
                    == errno && failure.close is None
            },
            (MmapState::Sizing { fd, .. }, MmapReply::Ftruncate { rc, errno }) => {
                &&& state.after(reply) is Failed <==> rc != 0
                &&& state.after(reply) matches MmapStep::Failed(failure) ==> failure.err.code
                    == errno && failure.close == Some(fd)
            },
            (MmapState::Inspecting { fd, .. }, MmapReply::Fstat { rc, size, errno }) => {
                &&& state.after(reply) is Failed <==> rc != 0
                &&& state.after(reply) matches MmapStep::Failed(failure) ==> failure.err.code
                    == errno && failure.close == Some(fd)
            },
            (MmapState::Identifying { fd, .. }, MmapReply::Fstatfs { rc, f_type, errno }) => {
                &&& state.after(reply) is Failed <==> rc != 0 || f_type != 0x9584_58f6
                &&& state.after(reply) matches MmapStep::Failed(failure) ==> failure.close == Some(
                    fd,
                )
                &&& state.after(reply) matches MmapStep::Failed(failure) ==> rc != 0
                    ==> failure.err.code == errno
                &&& state.after(reply) matches MmapStep::Failed(failure) ==> rc == 0
                    ==> failure.err.code == 22
            },
            (MmapState::Mapping { fd, .. }, MmapReply::Mmap { addr, errno }) => {
                &&& state.after(reply) is Failed <==> addr == usize::MAX
                &&& state.after(reply) matches MmapStep::Failed(failure) ==> failure.err.code
                    == errno && failure.close == Some(fd)
            },
            _ => state.after(reply) == MmapStep::Next(state),
        },
{
}

/// Where a successful reply leads. A new memfd is sized unless it is on huge pages. An
/// existing one is mapped right away where its size reaches the wanted length, and otherwise
/// only where its file system is the one of huge pages.
pub proof fn law_successes_lead_on(state: MmapState, reply: MmapReply)
    ensures
        match (state, reply) {
            (
                MmapState::Creating { len, use_huge_pages },
                MmapReply::MemfdCreate { raw_fd, .. },
            ) => raw_fd >= 0 ==> {
                let fd = OwnedFd { raw: raw_fd };
                &&& use_huge_pages ==> state.after(reply) == MmapStep::Next(
                    MmapState::Mapping { fd, len },
                )
                &&& !use_huge_pages ==> state.after(reply) == MmapStep::Next(
                    MmapState::Sizing { fd, len },
                )
            },
            (MmapState::Sizing { fd, len }, MmapReply::Ftruncate { rc, .. }) => rc == 0
                ==> state.after(reply) == MmapStep::Next(MmapState::Mapping { fd, len }),
            (MmapState::Inspecting { fd, len }, MmapReply::Fstat { rc, size, .. }) => {
                &&& rc == 0 && size >= len ==> state.after(reply) == MmapStep::Next(
                    MmapState::Mapping { fd, len },
                )
                &&& rc == 0 && size < len ==> state.after(reply) == MmapStep::Next(
                    MmapState::Identifying { fd, len },
                )
            },
            (MmapState::Identifying { fd, len }, MmapReply::Fstatfs { rc, f_type, .. }) => rc == 0
                && f_type == 0x9584_58f6 ==> state.after(reply) == MmapStep::Next(
                MmapState::Mapping { fd, len },
            ),
            (MmapState::Mapping { fd, len }, MmapReply::Mmap { addr, .. }) => addr != usize::MAX
                ==> state.after(reply) == MmapStep::Ready(Mmap { addr, len, fd }),
            _ => true,
        },
{
}

/// A mapping is given up in two steps: its whole region is unmapped, and then its memfd is
/// closed.
pub proof fn law_mapping_is_given_up_in_order(mmap: Mmap)
    ensures
        mmap.release_steps().len() == 2,
        mmap.release_steps()[0] matches Release::Unmap { region } && region.addr == mmap.addr
            && region.len == mmap.len,
        mmap.release_steps()[1] matches Release::CloseFd { fd } && fd == mmap.fd.raw,
{
}

} // verus!
