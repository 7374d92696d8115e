//! Trusted boundary to the kernel transport.
//!
//! Everything in this module either declares an item of the `sentry_uapi`
//! crate to the verifier or wraps one call into it. The kernel decides every
//! status and every copied value, so nothing is promised of the results:
//! the verified code in [`crate::region`] takes them as arguments and is
//! proved for every outcome.

use vstd::prelude::*;

use crate::types::{ShmInfo, KernelStatus};

verus! {

/// Declaration of the kernel interface's status enum, so that the syscall
/// declarations below can name it. Its values are opaque here; they are
/// translated by [`status_of`].
#[verifier::external_type_specification]
#[verifier::external_body]
pub struct ExStatus(sentry_uapi::systypes::Status);

/// Relies on `sentry_uapi::syscall::get_shm_handle`: asks the kernel to put
/// the handle bound to a shared-memory label into the exchange area. The
/// status is whatever the kernel reports.
pub assume_specification [ sentry_uapi::syscall::get_shm_handle ](
    shm: sentry_uapi::systypes::ShmLabel,
) -> sentry_uapi::systypes::Status;

/// Relies on `sentry_uapi::syscall::map_shm`: asks the kernel to map the
/// region into the caller's address space. The status is whatever the kernel
/// reports.
pub assume_specification [ sentry_uapi::syscall::map_shm ](
    shm: sentry_uapi::systypes::ShmHandle,
) -> sentry_uapi::systypes::Status;

/// Relies on `sentry_uapi::syscall::unmap_shm`: asks the kernel to unmap the
/// region. The status is whatever the kernel reports.
pub assume_specification [ sentry_uapi::syscall::unmap_shm ](
    shm: sentry_uapi::systypes::ShmHandle,
) -> sentry_uapi::systypes::Status;

/// Relies on `sentry_uapi::syscall::shm_set_credential`: asks the kernel to
/// set the credentials of the region for a target task. The status is
/// whatever the kernel reports.
pub assume_specification [ sentry_uapi::syscall::shm_set_credential ](
    shm: sentry_uapi::systypes::ShmHandle,
    id: sentry_uapi::systypes::TaskHandle,
    shm_perm: u32,
) -> sentry_uapi::systypes::Status;

/// Relies on `sentry_uapi::syscall::shm_get_infos`: asks the kernel to put
/// the region's descriptor into the exchange area. The status is whatever
/// the kernel reports.
pub assume_specification [ sentry_uapi::syscall::shm_get_infos ](
    shm: sentry_uapi::systypes::ShmHandle,
) -> sentry_uapi::systypes::Status;

/// Relies on `sentry_uapi::systypes::Status`: translates each kernel
/// status, variant for variant, into this crate's [`KernelStatus`]. Which
/// variant the kernel reports is its own decision, so no more is stated.
#[verifier::external_body]
pub fn status_of(s: sentry_uapi::systypes::Status) -> KernelStatus {
    match s {
        sentry_uapi::systypes::Status::Ok => KernelStatus::Okay,
        sentry_uapi::systypes::Status::Invalid => KernelStatus::Invalid,
        sentry_uapi::systypes::Status::Denied => KernelStatus::Denied,
        sentry_uapi::systypes::Status::NoEntity => KernelStatus::NoEntity,
        sentry_uapi::systypes::Status::Busy => KernelStatus::Busy,
        sentry_uapi::systypes::Status::AlreadyMapped => KernelStatus::AlreadyMapped,
        sentry_uapi::systypes::Status::Critical => KernelStatus::Critical,
        sentry_uapi::systypes::Status::Timeout => KernelStatus::Timeout,
        sentry_uapi::systypes::Status::Again => KernelStatus::Again,
        sentry_uapi::systypes::Status::Intr => KernelStatus::Intr,
        sentry_uapi::systypes::Status::Deadlk => KernelStatus::Deadlk,
    }
}

/// Relies on `sentry_uapi::copy_from_kernel` at `u32`: copies the handle the
/// kernel prepared in the exchange area. Returns the copied value and the
/// copy's status, flattened from either side of the result; both are decided
/// by the kernel, so no more is stated.
#[verifier::external_body]
pub fn copy_handle_from_kernel() -> (u32, sentry_uapi::systypes::Status) {
    let mut handle: u32 = 0;
    let status = match sentry_uapi::copy_from_kernel(&mut handle) {
        Ok(s) => s,
        Err(s) => s,
    };
    (handle, status)
}

/// Relies on `sentry_uapi::copy_from_kernel` at the kernel's descriptor
/// type: copies the descriptor the kernel prepared in the exchange area,
/// field for field, into this crate's [`ShmInfo`]. Returns the copied value
/// and the copy's status, flattened from either side of the result; both are
/// decided by the kernel, so no more is stated.
#[verifier::external_body]
pub fn copy_info_from_kernel() -> (ShmInfo, sentry_uapi::systypes::Status) {
    let mut raw = sentry_uapi::systypes::shm::ShmInfo { handle: 0, label: 0, base: 0, len: 0, perms: 0 };
    let status = match sentry_uapi::copy_from_kernel(&mut raw) {
        Ok(s) => s,
        Err(s) => s,
    };
    let info = ShmInfo { handle: raw.handle, label: raw.label, base: raw.base, len: raw.len, perms: raw.perms };
    (info, status)
}

} // verus!
