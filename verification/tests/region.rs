//! Tests of the shared-region lifecycle, cache behaviour and capability
//! queries.
//!
//! The `complete_*` functions take the kernel's verdict as an argument, so
//! the scenarios below can drive the verified state machine with chosen
//! statuses and descriptors. The tests that go through `new`, `map`,
//! `unmap`, `set_credentials` and `info` exercise the real kernel boundary
//! of the linked interface crate.

use shm::{
    KernelStatus, Shm, ShmInfo, ShmPermission, Unmapped, SHM_PERM_MAP, SHM_PERM_READ,
    SHM_PERM_TRANSFER, SHM_PERM_WRITE,
};

fn descriptor(perms: u32) -> ShmInfo {
    ShmInfo { handle: 7, label: 11, base: 0x2000_0000, len: 4096, perms }
}

#[test]
fn create_starts_unmapped_with_empty_cache() {
    let region = Shm::<Unmapped>::new(42).unwrap();
    assert_eq!(region.label(), 42);
    assert!(!region.has_cached_info());
}

#[test]
fn from_resolved_carries_label_and_handle() {
    let region = Shm::<Unmapped>::from_resolved(11, 7);
    assert_eq!(region.label(), 11);
    assert_eq!(region.handle(), 7);
    assert!(!region.has_cached_info());
}

#[test]
fn map_unmap_round_trips_preserve_identity() {
    let mut current = Shm::<Unmapped>::from_resolved(11, 7);
    for _ in 0..4 {
        let mapped = match current.complete_map(KernelStatus::Okay) {
            Ok(mapped) => mapped,
            Err(_) => panic!("map refused"),
        };
        assert_eq!(mapped.handle(), 7);
        assert!(!mapped.has_cached_info());
        current = match mapped.complete_unmap(KernelStatus::Okay) {
            Ok(unmapped) => unmapped,
            Err(_) => panic!("unmap refused"),
        };
        assert_eq!(current.handle(), 7);
        assert_eq!(current.label(), 11);
        assert!(!current.has_cached_info());
    }
}

#[test]
fn map_unmap_repeats_through_kernel_boundary() {
    let region = Shm::<Unmapped>::new(1).unwrap();
    let mapped = match region.map(3) {
        Ok(mapped) => mapped,
        Err(_) => panic!("map refused"),
    };
    let region = match mapped.unmap() {
        Ok(unmapped) => unmapped,
        Err(_) => panic!("unmap refused"),
    };
    let mapped = match region.map(3) {
        Ok(mapped) => mapped,
        Err(_) => panic!("second map refused"),
    };
    let region = match mapped.unmap() {
        Ok(unmapped) => unmapped,
        Err(_) => panic!("second unmap refused"),
    };
    assert_eq!(region.label(), 1);
    assert!(!region.has_cached_info());
}

#[test]
fn successful_mutators_invalidate_cache() {
    let mut region = Shm::<Unmapped>::from_resolved(11, 7);
    let info = descriptor(SHM_PERM_READ | SHM_PERM_WRITE);

    assert_eq!(region.complete_refresh(Ok(info)), Ok(info));
    assert!(region.has_cached_info());
    assert_eq!(region.complete_set_credentials(KernelStatus::Okay), Ok(()));
    assert!(!region.has_cached_info());

    assert_eq!(region.complete_refresh(Ok(info)), Ok(info));
    let mut mapped = match region.complete_map(KernelStatus::Okay) {
        Ok(mapped) => mapped,
        Err(_) => panic!("map refused"),
    };
    assert!(!mapped.has_cached_info());

    assert_eq!(mapped.complete_refresh(Ok(info)), Ok(info));
    let region = match mapped.complete_unmap(KernelStatus::Okay) {
        Ok(unmapped) => unmapped,
        Err(_) => panic!("unmap refused"),
    };
    assert!(!region.has_cached_info());
}

#[test]
fn failed_mutators_keep_cache_and_state() {
    let mut region = Shm::<Unmapped>::from_resolved(11, 7);
    let info = descriptor(SHM_PERM_READ);
    assert_eq!(region.complete_refresh(Ok(info)), Ok(info));

    assert_eq!(
        region.complete_set_credentials(KernelStatus::Busy),
        Err(KernelStatus::Busy)
    );
    assert!(region.has_cached_info());
    assert_eq!(region.info(), Ok(info));
}

#[test]
fn info_reuses_cache() {
    let mut region = Shm::<Unmapped>::from_resolved(11, 7);
    let info = descriptor(SHM_PERM_READ);
    assert_eq!(region.complete_refresh(Ok(info)), Ok(info));
    assert_eq!(region.info(), Ok(info));
    assert_eq!(region.info(), Ok(info));
    assert!(region.has_cached_info());
}

#[test]
fn info_through_kernel_boundary_caches() {
    let mut region = Shm::<Unmapped>::new(5).unwrap();
    assert!(!region.has_cached_info());
    let first = region.info().unwrap();
    assert!(region.has_cached_info());
    let second = region.info().unwrap();
    assert_eq!(first, second);
}

#[test]
fn accessors_project_the_descriptor() {
    let mut region = Shm::<Unmapped>::from_resolved(11, 7);
    let info = descriptor(SHM_PERM_READ | SHM_PERM_WRITE);
    assert_eq!(region.complete_refresh(Ok(info)), Ok(info));
    assert_eq!(region.permissions(), Ok(SHM_PERM_READ | SHM_PERM_WRITE));
    assert_eq!(region.base_address(), Ok(0x2000_0000));
    assert_eq!(region.length(), Ok(4096));
}

#[test]
fn failed_refresh_surfaces_status_and_fills_nothing() {
    let mut region = Shm::<Unmapped>::from_resolved(11, 7);
    assert_eq!(
        region.complete_refresh(Err(KernelStatus::Denied)),
        Err(KernelStatus::Denied)
    );
    assert!(!region.has_cached_info());
}

#[test]
fn capability_queries_follow_permission_bits() {
    let mut region = Shm::<Unmapped>::from_resolved(11, 7);
    let info = descriptor(SHM_PERM_READ | SHM_PERM_TRANSFER);
    assert_eq!(region.complete_refresh(Ok(info)), Ok(info));
    assert!(region.is_readable());
    assert!(!region.is_writable());
    assert!(region.is_transferable());
    assert!(!region.is_mappable());
}

#[test]
fn capability_queries_return_booleans_without_cache() {
    let mut region = Shm::<Unmapped>::new(5).unwrap();
    assert!(!region.is_readable());
    assert!(!region.is_writable());
    assert!(!region.is_transferable());
    assert!(!region.is_mappable());
}

#[test]
fn scenario_create_map_info_unmap() {
    let region = Shm::<Unmapped>::from_resolved(11, 7);
    assert_eq!(region.handle(), 7);

    let mut mapped = match region.complete_map(KernelStatus::Okay) {
        Ok(mapped) => mapped,
        Err(_) => panic!("map refused"),
    };
    assert_eq!(mapped.handle(), 7);

    let fresh = descriptor(SHM_PERM_READ | SHM_PERM_WRITE);
    assert_eq!(mapped.complete_refresh(Ok(fresh)), Ok(fresh));
    assert_eq!(mapped.info(), Ok(fresh));
    assert_eq!(mapped.base_address(), Ok(0x2000_0000));
    assert_eq!(mapped.length(), Ok(4096));
    assert_eq!(mapped.permissions(), Ok(SHM_PERM_READ | SHM_PERM_WRITE));

    let region = match mapped.complete_unmap(KernelStatus::Okay) {
        Ok(unmapped) => unmapped,
        Err(_) => panic!("unmap refused"),
    };
    assert_eq!(region.handle(), 7);
    assert!(!region.has_cached_info());
}

#[test]
fn scenario_set_credentials_then_transferable() {
    let mut region = Shm::<Unmapped>::from_resolved(11, 7);
    let stale = descriptor(SHM_PERM_READ);
    assert_eq!(region.complete_refresh(Ok(stale)), Ok(stale));

    assert_eq!(region.complete_set_credentials(KernelStatus::Okay), Ok(()));
    assert!(!region.has_cached_info());

    let fresh = descriptor(SHM_PERM_TRANSFER);
    assert_eq!(region.complete_refresh(Ok(fresh)), Ok(fresh));
    assert!(region.is_transferable());
}

#[test]
fn scenario_denied_map_keeps_instance_for_retry() {
    let region = Shm::<Unmapped>::from_resolved(11, 7);
    let (region, status) = match region.complete_map(KernelStatus::Denied) {
        Ok(_) => panic!("denied map must not succeed"),
        Err(pair) => pair,
    };
    assert_eq!(status, KernelStatus::Denied);
    assert_eq!(region.handle(), 7);
    assert_eq!(region.label(), 11);
    assert!(!region.has_cached_info());

    let mapped = match region.complete_map(KernelStatus::Okay) {
        Ok(mapped) => mapped,
        Err(_) => panic!("retry refused"),
    };
    assert_eq!(mapped.handle(), 7);
}

#[test]
fn set_credentials_through_kernel_boundary() {
    let mut region = Shm::<Unmapped>::new(2).unwrap();
    region.info().unwrap();
    assert!(region.has_cached_info());
    assert_eq!(region.set_credentials(5, SHM_PERM_TRANSFER), Ok(()));
    assert!(!region.has_cached_info());
}

#[test]
fn failing_statuses_are_surfaced_verbatim() {
    let failures = [
        KernelStatus::Invalid,
        KernelStatus::Denied,
        KernelStatus::NoEntity,
        KernelStatus::Busy,
        KernelStatus::AlreadyMapped,
        KernelStatus::Critical,
        KernelStatus::Timeout,
        KernelStatus::Again,
        KernelStatus::Intr,
        KernelStatus::Deadlk,
    ];
    for status in failures {
        let mut region = Shm::<Unmapped>::from_resolved(1, 2);
        assert_eq!(region.complete_set_credentials(status), Err(status));
        assert!(!region.has_cached_info());
        match region.complete_map(status) {
            Ok(_) => panic!("failing status must not map"),
            Err((region, back)) => {
                assert_eq!(back, status);
                assert_eq!(region.handle(), 2);
            }
        }
    }
}

#[test]
fn permission_bits_match_kernel_encoding() {
    assert_eq!(ShmPermission::Mappable.mask(), SHM_PERM_MAP);
    assert_eq!(ShmPermission::Readable.mask(), SHM_PERM_READ);
    assert_eq!(ShmPermission::Writable.mask(), SHM_PERM_WRITE);
    assert_eq!(ShmPermission::Transferable.mask(), SHM_PERM_TRANSFER);
    assert_eq!(SHM_PERM_MAP, 0x1);
    assert_eq!(SHM_PERM_READ, 0x2);
    assert_eq!(SHM_PERM_WRITE, 0x4);
    assert_eq!(SHM_PERM_TRANSFER, 0x8);
}
