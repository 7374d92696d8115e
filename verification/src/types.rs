//! Plain-value models of the kernel interface's shared-memory types: the
//! status vocabulary, the region descriptor, and the permission bits.

use vstd::prelude::*;

verus! {

/// Status reported by the kernel boundary for every exchange.
///
/// The vocabulary mirrors the kernel interface's status codes; this crate
/// treats it as "`Okay` versus everything else" and surfaces failing statuses
/// to the caller verbatim.
#[derive(Clone, Copy, Debug, PartialEq, Eq, Structural)]
pub enum KernelStatus {
    /// The kernel completed the request without error.
    Okay,
    /// At least one parameter is not valid (not allowed or not found).
    Invalid,
    /// The action is not allowed for the caller, or the resource is not owned.
    Denied,
    /// The requested resource does not exist.
    NoEntity,
    /// The requested resource is in a state that forbids the call.
    Busy,
    /// The requested resource is already mapped.
    AlreadyMapped,
    /// Critical, mostly security-related, unexpected event; also reserved
    /// for this crate's own consistency violations.
    Critical,
    /// The resource did not respond or the call reached its maximum wait time.
    Timeout,
    /// The resource is not available yet.
    Again,
    /// The call was interrupted sooner than expected.
    Intr,
    /// The request cannot be served without creating a deadlock.
    Deadlk,
}

/// Snapshot of a region's metadata as last reported by the kernel.
#[derive(Clone, Copy, Debug, PartialEq, Eq, Structural)]
pub struct ShmInfo {
    /// Kernel-assigned handle of the region.
    pub handle: u32,
    /// Stable logical label of the region.
    pub label: u32,
    /// Base virtual address of the mapping.
    pub base: usize,
    /// Length of the region in bytes.
    pub len: usize,
    /// Permission mask currently in force, an OR of the `SHM_PERM_*` bits.
    pub perms: u32,
}

/// Bit allowing the target task to map the region at all.
pub const SHM_PERM_MAP: u32 = 0x1;
/// Bit allowing the target task to read the mapped region.
pub const SHM_PERM_READ: u32 = 0x2;
/// Bit allowing the target task to write the mapped region.
pub const SHM_PERM_WRITE: u32 = 0x4;
/// Bit allowing the target task to hand the region to another task.
pub const SHM_PERM_TRANSFER: u32 = 0x8;

/// The four independent capabilities a permission mask can grant.
///
/// The bit assigned to each capability follows the kernel interface's
/// permission encoding.
#[derive(Clone, Copy, Debug, PartialEq, Eq, Structural)]
pub enum ShmPermission {
    /// The region may be mapped.
    Mappable,
    /// The mapped region may be read.
    Readable,
    /// The mapped region may be written.
    Writable,
    /// The region may be transferred to another task.
    Transferable,
}

impl ShmPermission {
    /// The bit this capability occupies in a permission mask.
    pub open spec fn bit(self) -> u32 {
        match self {
            ShmPermission::Mappable => SHM_PERM_MAP,
            ShmPermission::Readable => SHM_PERM_READ,
            ShmPermission::Writable => SHM_PERM_WRITE,
            ShmPermission::Transferable => SHM_PERM_TRANSFER,
        }
    }

    /// Executable form of [`ShmPermission::bit`].
    pub fn mask(self) -> (r: u32)
        ensures
            r == self.bit(),
    {
        match self {
            ShmPermission::Mappable => SHM_PERM_MAP,
            ShmPermission::Readable => SHM_PERM_READ,
            ShmPermission::Writable => SHM_PERM_WRITE,
            ShmPermission::Transferable => SHM_PERM_TRANSFER,
        }
    }
}

/// Whether a permission mask grants a capability.
pub open spec fn mask_grants(perms: u32, p: ShmPermission) -> bool {
    perms & p.bit() != 0
}

} // verus!
