//! Typestate handle for a kernel-managed shared-memory region.
//!
//! A region is identified by a stable label, backed by a kernel-assigned
//! handle, and is at any time either unmapped or mapped into the task's
//! address space. The lifecycle state is carried in the type
//! ([`Shm<Unmapped>`] versus [`Shm<Mapped>`]), so an operation that is only
//! legal in one state cannot be called in the other. Region metadata is
//! cached lazily and invalidated on every successful state-changing call.

pub mod kernel;
pub mod region;
pub mod types;

pub use region::{Mapped, RegionModel, Shm, Unmapped};
pub use types::{ShmInfo, ShmPermission, KernelStatus};
pub use types::{SHM_PERM_MAP, SHM_PERM_READ, SHM_PERM_TRANSFER, SHM_PERM_WRITE};
