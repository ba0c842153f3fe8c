use xsk_rs::mmap::{Mmap, MmapCall, MmapFailure, MmapReply, MmapState, MmapStep};
use xsk_rs::os::{mmap_result, MmapRequest, OsError, OwnedFd, RawMmap, Release};
use xsk_rs::umem::{SegmentLengths, Umem, UmemConfig};

const XDP_UMEM_MIN_CHUNK_SIZE: u32 = 2048;
const XDP_PACKET_HEADROOM: u32 = 256;
const FRAME_COUNT: u32 = 8;

fn default_config() -> UmemConfig {
    UmemConfig {
        frame_size: XDP_UMEM_MIN_CHUNK_SIZE,
        xdp_headroom: XDP_PACKET_HEADROOM,
        frame_headroom: 0,
    }
}

const TMPFS_MAGIC: u32 = 0x0102_1994;

fn on_file_system(f_type: u32) -> MmapReply {
    MmapReply::Fstatfs { rc: 0, f_type, errno: 0 }
}

fn next(step: MmapStep) -> MmapState {
    match step {
        MmapStep::Next(state) => state,
        other => panic!("expected another call, got {:?}", other),
    }
}

fn failure(step: MmapStep) -> MmapFailure {
    match step {
        MmapStep::Failed(failure) => failure,
        other => panic!("expected a failure, got {:?}", other),
    }
}

fn mapped(step: MmapStep) -> Mmap {
    match step {
        MmapStep::Ready(mmap) => mmap,
        other => panic!("expected a mapping, got {:?}", other),
    }
}

fn expect_shared_map(call: MmapCall, fd: i32, len: usize) {
    match call {
        MmapCall::Mmap(request) => {
            assert_eq!(request.fd, fd);
            assert_eq!(request.len, len);
            assert_eq!(request.offset, 0);
            assert_eq!(request.prot, libc::PROT_READ | libc::PROT_WRITE);
            assert_eq!(request.flags, libc::MAP_SHARED | libc::MAP_POPULATE);
        }
        other => panic!("expected mmap, got {:?}", other),
    }
}

#[test]
fn confirm_pointer_offset_is_a_single_byte() {
    assert_eq!(std::mem::size_of::<libc::c_void>(), 1);
}

#[test]
fn from_memfd_rebuilds_layout_and_descs() {
    let config = default_config();
    let frame_size = config.frame_size as usize;
    let len = frame_size * FRAME_COUNT as usize;

    let state = Umem::from_memfd(config, FRAME_COUNT, OwnedFd::new(9));
    assert!(matches!(state.request(), MmapCall::Fstat { fd: 9 }));
    let state = next(state.step(MmapReply::Fstat { rc: 0, size: len as libc::off_t, errno: 0 }));
    expect_shared_map(state.request(), 9, len);
    let mmap = mapped(state.step(MmapReply::Mmap { addr: 0x7000_0000, errno: 0 }));
    let (umem, descs) = Umem::from_mmap(config, FRAME_COUNT, mmap);

    assert_eq!(umem.mem.addr(), 0x7000_0000);
    assert_eq!(umem.mem.as_raw_fd(), 9);
    assert_eq!(umem.mem.len, 16384);
    assert_eq!(descs.len(), FRAME_COUNT as usize);

    // Frame N's data segment starts at N*frame_size + xdp_headroom + frame_headroom.
    let xdp_hr = config.xdp_headroom as usize;
    let frame_hr = config.frame_headroom as usize;
    for (i, d) in descs.iter().enumerate() {
        let expected = i * frame_size + xdp_hr + frame_hr;
        assert_eq!(
            d.addr(),
            expected,
            "desc[{}] addr mismatch: got {}, want {}",
            i,
            d.addr(),
            expected
        );
        assert_eq!(d.lengths().data, 0);
        assert_eq!(d.lengths().headroom, 0);
    }
}

#[test]
fn from_memfd_undersized_fd_fails_cleanly() {
    // memfd sized for 2 frames but caller asks for 8.
    let config = default_config();
    let short_len = config.frame_size as libc::off_t * 2;

    let state = Umem::from_memfd(config, FRAME_COUNT, OwnedFd::new(9));
    let state = next(state.step(MmapReply::Fstat { rc: 0, size: short_len, errno: 0 }));
    assert!(matches!(state.request(), MmapCall::Fstatfs { fd: 9 }));
    let failure = failure(state.step(on_file_system(TMPFS_MAGIC)));
    assert!(
        failure.err.raw_os_error().is_some(),
        "the failure should carry the underlying error"
    );
    assert_eq!(failure.err.code, libc::EINVAL);
    assert_eq!(failure.close, Some(OwnedFd::new(9)));
}

#[test]
fn from_fd_one_byte_short_is_refused() {
    let state = Mmap::from_fd(OwnedFd::new(4), 4096);
    let state = next(state.step(MmapReply::Fstat { rc: 0, size: 4095, errno: 0 }));
    let failure = failure(state.step(on_file_system(TMPFS_MAGIC)));
    assert_eq!(failure.err, OsError::from_raw_os_error(22));
}

#[test]
fn from_fd_on_huge_pages_without_a_size_is_mapped() {
    let state = Mmap::from_fd(OwnedFd::new(4), 1 << 21);
    let state = next(state.step(MmapReply::Fstat { rc: 0, size: 0, errno: 0 }));
    let state = next(state.step(on_file_system(libc::HUGETLBFS_MAGIC as u32)));
    expect_shared_map(state.request(), 4, 1 << 21);
}

#[test]
fn from_fd_on_an_unknown_file_system_fails() {
    let state = Mmap::from_fd(OwnedFd::new(4), 4096);
    let state = next(state.step(MmapReply::Fstat { rc: 0, size: 0, errno: 0 }));
    let f_type = libc::HUGETLBFS_MAGIC as u32;
    let failure = failure(state.step(MmapReply::Fstatfs { rc: -1, f_type, errno: libc::EIO }));
    assert_eq!(failure.err.code, libc::EIO);
    assert_eq!(failure.close, Some(OwnedFd::new(4)));
}

#[test]
fn new_ends_as_from_fd_on_the_memfd_it_creates() {
    for addr in [0x1000, usize::MAX] {
        let reply = MmapReply::Mmap { addr, errno: libc::ENOMEM };
        let created = Mmap::new(4096, false);
        let created = next(created.step(MmapReply::MemfdCreate { raw_fd: 5, errno: 0 }));
        let created = next(created.step(MmapReply::Ftruncate { rc: 0, errno: 0 }));
        let adopted = Mmap::from_fd(OwnedFd::new(5), 4096);
        let adopted = next(adopted.step(MmapReply::Fstat { rc: 0, size: 4096, errno: 0 }));
        assert_eq!(created, adopted);
        assert_eq!(created.step(reply), adopted.step(reply));
    }
}

#[test]
fn from_fd_exact_and_larger_are_mapped() {
    for size in [4096, 4097] {
        let state = Mmap::from_fd(OwnedFd::new(4), 4096);
        let state = next(state.step(MmapReply::Fstat { rc: 0, size, errno: 0 }));
        expect_shared_map(state.request(), 4, 4096);
    }
}

#[test]
fn from_fd_that_cannot_be_inspected_fails() {
    let state = Mmap::from_fd(OwnedFd::new(4), 4096);
    let failure = failure(state.step(MmapReply::Fstat { rc: -1, size: 4096, errno: libc::EBADF }));
    assert_eq!(failure.err.code, libc::EBADF);
    assert_eq!(failure.close, Some(OwnedFd::new(4)));
}

#[test]
fn new_on_regular_pages_creates_sizes_and_maps() {
    let state = Mmap::new(8192, false);
    match state.request() {
        MmapCall::MemfdCreate { name, flags } => {
            assert_eq!(name, "xsk-rs-umem");
            assert_eq!(flags, libc::MFD_CLOEXEC);
        }
        other => panic!("expected memfd_create, got {:?}", other),
    }
    let state = next(state.step(MmapReply::MemfdCreate { raw_fd: 5, errno: 0 }));
    assert!(matches!(state.request(), MmapCall::Ftruncate { fd: 5, len: 8192 }));
    let state = next(state.step(MmapReply::Ftruncate { rc: 0, errno: 0 }));
    expect_shared_map(state.request(), 5, 8192);
    let mmap = mapped(state.step(MmapReply::Mmap { addr: 0x1000, errno: 0 }));
    assert_eq!(mmap, Mmap { addr: 0x1000, len: 8192, fd: OwnedFd::new(5) });
    assert_eq!(mmap.as_fd(), &OwnedFd::new(5));
}

#[test]
fn new_on_huge_pages_is_not_truncated() {
    let state = Mmap::new(1 << 21, true);
    match state.request() {
        MmapCall::MemfdCreate { flags, .. } => {
            assert_eq!(flags, libc::MFD_CLOEXEC | libc::MFD_HUGETLB);
        }
        other => panic!("expected memfd_create, got {:?}", other),
    }
    let state = next(state.step(MmapReply::MemfdCreate { raw_fd: 0, errno: 0 }));
    expect_shared_map(state.request(), 0, 1 << 21);
}

#[test]
fn new_reports_each_failed_call() {
    let created = failure(
        Mmap::new(4096, false).step(MmapReply::MemfdCreate { raw_fd: -1, errno: libc::EMFILE }),
    );
    assert_eq!(created.err.code, libc::EMFILE);
    assert_eq!(created.close, None);

    let state = next(Mmap::new(4096, false).step(MmapReply::MemfdCreate { raw_fd: 5, errno: 0 }));
    let sized = failure(state.step(MmapReply::Ftruncate { rc: -1, errno: libc::ENOSPC }));
    assert_eq!(sized.err.code, libc::ENOSPC);
    assert_eq!(sized.close, Some(OwnedFd::new(5)));

    let state = next(Mmap::new(4096, true).step(MmapReply::MemfdCreate { raw_fd: 6, errno: 0 }));
    let addr = libc::MAP_FAILED as usize;
    let mapped = failure(state.step(MmapReply::Mmap { addr, errno: libc::ENOMEM }));
    assert_eq!(mapped.err.code, libc::ENOMEM);
    assert_eq!(mapped.close, Some(OwnedFd::new(6)));
}

#[test]
fn reply_to_another_call_is_passed_over() {
    let state = next(Mmap::new(4096, false).step(MmapReply::Ftruncate { rc: -1, errno: 1 }));
    assert_eq!(state, Mmap::new(4096, false));
}

#[test]
fn region_is_unmapped_before_its_memfd_is_closed() {
    let mmap = Mmap { addr: 0x4000, len: 4096, fd: OwnedFd::new(7) };
    assert_eq!(
        mmap.release(),
        vec![
            Release::Unmap { region: RawMmap { addr: 0x4000, len: 4096 } },
            Release::CloseFd { fd: 7 },
        ]
    );
}

#[test]
fn shared_request_passes_its_arguments_on() {
    let request = MmapRequest::shared(&OwnedFd::new(3), 192, 0x8000_0000);
    assert_eq!(request.fd, 3);
    assert_eq!(request.len, 192);
    assert_eq!(request.offset, 0x8000_0000);
}

#[test]
fn mmap_result_tells_failure_by_the_address() {
    assert_eq!(mmap_result(usize::MAX, 12), Err(OsError { code: 12 }));
    assert_eq!(mmap_result(0x1000, 12), Ok(0x1000));
}

#[test]
fn frames_follow_one_another_with_both_headrooms() {
    let config = UmemConfig { frame_size: 4096, xdp_headroom: 256, frame_headroom: 64 };
    let mmap = Mmap { addr: 0x1000, len: 3 * 4096, fd: OwnedFd::new(3) };
    let (_umem, descs) = Umem::from_mmap(config, 3, mmap);
    let addrs: Vec<usize> = descs.iter().map(|d| d.addr()).collect();
    assert_eq!(addrs, vec![320, 4416, 8512]);
    assert_eq!(descs[2].lengths(), SegmentLengths { headroom: 0, data: 0 });
}
