//! The shared-region handle: a typestate value that is either
//! [`Shm<Unmapped>`] or [`Shm<Mapped>`], with a lazily filled info cache.
//!
//! Every kernel exchange is split in two: a thin call through
//! [`crate::kernel`], whose outcome the kernel alone decides, and a
//! `complete_*` function that takes that outcome as an argument and carries
//! an exact contract. The `complete_*` functions are the verified state
//! machine; the public operations merely feed them the kernel's answer.

use core::marker::PhantomData;

use vstd::prelude::*;

use crate::kernel::{copy_handle_from_kernel, copy_info_from_kernel, status_of};
use crate::types::{mask_grants, KernelStatus, ShmInfo, ShmPermission};

verus! {

/// Marker type for a shared-memory region that is **not** mapped.
pub struct Unmapped;

/// Marker type for a shared-memory region that **is** mapped.
pub struct Mapped;

/// Mathematical state of a region handle: the part of a [`Shm`] that
/// contracts and lemmas speak about.
pub ghost struct RegionModel {
    /// Kernel-assigned handle, fixed at construction.
    pub handle: u32,
    /// Caller-supplied label, fixed at construction.
    pub label: u32,
    /// The cached descriptor, absent when never fetched or invalidated.
    pub cache: Option<ShmInfo>,
    /// How many info exchanges with the kernel this handle has performed.
    pub fetches: nat,
}

/// What every successful state-changing operation (map, unmap, credential
/// assignment) does to the model: the cache is dropped, since base address,
/// length or permissions may have changed kernel-side; everything else is
/// kept.
pub open spec fn invalidated(m: RegionModel) -> RegionModel {
    RegionModel { cache: None, ..m }
}

/// How one info query may change the model: the identity is kept, a cached
/// descriptor is reused without touching anything, and a missing one costs
/// exactly one kernel exchange.
pub open spec fn query_step(pre: RegionModel, post: RegionModel) -> bool {
    &&& post.handle == pre.handle
    &&& post.label == pre.label
    &&& (pre.cache is Some ==> post == pre)
    &&& (pre.cache is None ==> post.fetches == pre.fetches + 1)
}

/// Shared-memory region abstraction using the typestate pattern.
///
/// The lifecycle state is encoded in the type parameter, so that mapping an
/// already mapped region, unmapping an unmapped one, or assigning
/// credentials to a mapped one is rejected at compile time.
///
/// # Typestate
/// - [`Shm<Unmapped>`]: the region exists but is not mapped
/// - [`Shm<Mapped>`]: the region is mapped
///
/// # Invariants
/// - A `Shm` always carries the handle the resolver reported for its label.
/// - The cache, when present, holds the descriptor of the most recent
///   successful info exchange, and no state-changing call succeeded since.
pub struct Shm<State> {
    handle: u32,
    label: u32,
    info_cache: Option<ShmInfo>,
    fetches: Ghost<nat>,
    _state: PhantomData<State>,
}

impl<State> View for Shm<State> {
    type V = RegionModel;

    closed spec fn view(&self) -> RegionModel {
        RegionModel {
            handle: self.handle,
            label: self.label,
            cache: self.info_cache,
            fetches: self.fetches@,
        }
    }
}

impl<State> Shm<State> {
    /// The kernel-assigned handle of this region.
    pub fn handle(&self) -> (r: u32)
        ensures
            r == self@.handle,
    {
        self.handle
    }

    /// The label this region was created from.
    pub fn label(&self) -> (r: u32)
        ensures
            r == self@.label,
    {
        self.label
    }

    /// Whether a descriptor is currently cached.
    pub fn has_cached_info(&self) -> (r: bool)
        ensures
            r == (self@.cache is Some),
    {
        self.info_cache.is_some()
    }

    /// One "issue request, then copy response" exchange fetching the
    /// region's descriptor. Both steps fail fast; the kernel decides the
    /// statuses and the descriptor, so only the error shape is stated.
    fn exchange_info(&self) -> (r: Result<ShmInfo, KernelStatus>)
        ensures
            r matches Err(s) ==> s != KernelStatus::Okay,
    {
        match status_of(sentry_uapi::syscall::shm_get_infos(self.handle)) {
            KernelStatus::Okay => {}
            s => {
                return Err(s);
            }
        }
        let (info, raw) = copy_info_from_kernel();
        match status_of(raw) {
            KernelStatus::Okay => Ok(info),
            s => Err(s),
        }
    }

    /// Installs the outcome of one descriptor exchange: the deterministic
    /// half of a cache refresh, verified for every possible outcome.
    ///
    /// A successful exchange fills the cache with the fresh descriptor and
    /// returns it; a failed one surfaces the status and leaves the cache as
    /// it was. Either way the exchange is counted. A refresh that succeeds
    /// but yields no cache slot would be a defect of this crate and would be
    /// reported as [`KernelStatus::Critical`]; the contract shows that this
    /// cannot happen.
    pub fn complete_refresh(&mut self, reply: Result<ShmInfo, KernelStatus>) -> (r: Result<
        ShmInfo,
        KernelStatus,
    >)
        ensures
            final(self)@.handle == old(self)@.handle,
            final(self)@.label == old(self)@.label,
            final(self)@.fetches == old(self)@.fetches + 1,
            reply matches Ok(i) ==> final(self)@.cache == Some(i) && r == Ok::<
                ShmInfo,
                KernelStatus,
            >(i),
            reply matches Err(s) ==> final(self)@.cache == old(self)@.cache && r == Err::<
                ShmInfo,
                KernelStatus,
            >(s),
    {
        self.fetches = Ghost(self.fetches@ + 1);
        match reply {
            Ok(info) => {
                self.info_cache = Some(info);
                match self.info_cache {
                    Some(cached) => Ok(cached),
                    None => Err(KernelStatus::Critical),
                }
            },
            Err(s) => Err(s),
        }
    }

    /// Returns the region's descriptor: the cached one if present, otherwise
    /// the one a fresh kernel exchange reports, which is then cached.
    ///
    /// # Errors
    /// Propagates the kernel's status if the refresh exchange fails; a
    /// cached descriptor is returned without any exchange and cannot fail.
    pub fn info(&mut self) -> (r: Result<ShmInfo, KernelStatus>)
        ensures
            query_step(old(self)@, final(self)@),
            old(self)@.cache matches Some(i) ==> r == Ok::<ShmInfo, KernelStatus>(i),
            r matches Ok(i) ==> final(self)@.cache == Some(i),
            r matches Err(s) ==> s != KernelStatus::Okay && final(self)@.cache is None,
    {
        if let Some(info) = self.info_cache {
            return Ok(info);
        }
        let reply = self.exchange_info();
        self.complete_refresh(reply)
    }

    /// Returns the permission mask of the region.
    ///
    /// # Errors
    /// Propagates the kernel's status if the refresh exchange fails.
    pub fn permissions(&mut self) -> (r: Result<u32, KernelStatus>)
        ensures
            query_step(old(self)@, final(self)@),
            old(self)@.cache matches Some(i) ==> r == Ok::<u32, KernelStatus>(i.perms),
            r matches Ok(p) ==> (final(self)@.cache matches Some(i) && i.perms == p),
            r matches Err(s) ==> s != KernelStatus::Okay && final(self)@.cache is None,
    {
        match self.info() {
            Ok(info) => Ok(info.perms),
            Err(s) => Err(s),
        }
    }

    /// Returns the base virtual address of the region.
    ///
    /// # Errors
    /// Propagates the kernel's status if the refresh exchange fails.
    pub fn base_address(&mut self) -> (r: Result<usize, KernelStatus>)
        ensures
            query_step(old(self)@, final(self)@),
            old(self)@.cache matches Some(i) ==> r == Ok::<usize, KernelStatus>(i.base),
            r matches Ok(b) ==> (final(self)@.cache matches Some(i) && i.base == b),
            r matches Err(s) ==> s != KernelStatus::Okay && final(self)@.cache is None,
    {
        match self.info() {
            Ok(info) => Ok(info.base),
            Err(s) => Err(s),
        }
    }

    /// Returns the length in bytes of the region.
    ///
    /// # Errors
    /// Propagates the kernel's status if the refresh exchange fails.
    pub fn length(&mut self) -> (r: Result<usize, KernelStatus>)
        ensures
            query_step(old(self)@, final(self)@),
            old(self)@.cache matches Some(i) ==> r == Ok::<usize, KernelStatus>(i.len),
            r matches Ok(l) ==> (final(self)@.cache matches Some(i) && i.len == l),
            r matches Err(s) ==> s != KernelStatus::Okay && final(self)@.cache is None,
    {
        match self.info() {
            Ok(info) => Ok(info.len),
            Err(s) => Err(s),
        }
    }

    /// Whether the descriptor in force grants one capability. A failed
    /// refresh degrades to `false` instead of surfacing an error: capability
    /// queries are best-effort by design.
    fn has_permission(&mut self, perm: ShmPermission) -> (r: bool)
        ensures
            query_step(old(self)@, final(self)@),
            r == (final(self)@.cache matches Some(i) && mask_grants(i.perms, perm)),
    {
        match self.info() {
            Ok(info) => info.perms & perm.mask() != 0,
            Err(_) => false,
        }
    }

    /// Whether the region is readable; `false` when the info query fails.
    pub fn is_readable(&mut self) -> (r: bool)
        ensures
            query_step(old(self)@, final(self)@),
            r == (final(self)@.cache matches Some(i) && mask_grants(
                i.perms,
                ShmPermission::Readable,
            )),
    {
        self.has_permission(ShmPermission::Readable)
    }

    /// Whether the region is writable; `false` when the info query fails.
    pub fn is_writable(&mut self) -> (r: bool)
        ensures
            query_step(old(self)@, final(self)@),
            r == (final(self)@.cache matches Some(i) && mask_grants(
                i.perms,
                ShmPermission::Writable,
            )),
    {
        self.has_permission(ShmPermission::Writable)
    }

    /// Whether the region may be handed to another task; `false` when the
    /// info query fails.
    pub fn is_transferable(&mut self) -> (r: bool)
        ensures
            query_step(old(self)@, final(self)@),
            r == (final(self)@.cache matches Some(i) && mask_grants(
                i.perms,
                ShmPermission::Transferable,
            )),
    {
        self.has_permission(ShmPermission::Transferable)
    }

    /// Whether the region may be mapped at all; `false` when the info query
    /// fails.
    pub fn is_mappable(&mut self) -> (r: bool)
        ensures
            query_step(old(self)@, final(self)@),
            r == (final(self)@.cache matches Some(i) && mask_grants(
                i.perms,
                ShmPermission::Mappable,
            )),
    {
        self.has_permission(ShmPermission::Mappable)
    }
}

impl Shm<Unmapped> {
    /// Resolves a label to a kernel handle: one "issue request, then copy
    /// response" exchange. Both steps fail fast; the kernel decides the
    /// statuses and the handle, so only the error shape is stated.
    fn fetch_handle(label: u32) -> (r: Result<u32, KernelStatus>)
        ensures
            r matches Err(s) ==> s != KernelStatus::Okay,
    {
        match status_of(sentry_uapi::syscall::get_shm_handle(label)) {
            KernelStatus::Okay => {}
            s => {
                return Err(s);
            }
        }
        let (handle, raw) = copy_handle_from_kernel();
        match status_of(raw) {
            KernelStatus::Okay => Ok(handle),
            s => Err(s),
        }
    }

    /// Builds the unmapped region for a handle the resolver reported for
    /// `label`: the deterministic half of [`Shm::new`]. It starts with an
    /// empty cache and has performed no exchange yet.
    pub fn from_resolved(label: u32, handle: u32) -> (r: Shm<Unmapped>)
        ensures
            r@ == (RegionModel { handle, label, cache: None::<ShmInfo>, fetches: 0nat }),
    {
        Shm { handle, label, info_cache: None, fetches: Ghost(0nat), _state: PhantomData }
    }

    /// Creates a new shared-memory region in the **unmapped** state by
    /// resolving `label` to a handle. This does **not** map the memory.
    /// There is no other way to reach the kernel's handle for a label.
    ///
    /// # Errors
    /// Returns the kernel's status if either step of the resolution fails.
    pub fn new(label: u32) -> (r: Result<Shm<Unmapped>, KernelStatus>)
        ensures
            r matches Ok(shm) ==> shm@.label == label && shm@.cache is None && shm@.fetches
                == 0,
            r matches Err(s) ==> s != KernelStatus::Okay,
    {
        match Self::fetch_handle(label) {
            Ok(handle) => Ok(Self::from_resolved(label, handle)),
            Err(s) => Err(s),
        }
    }

    /// Applies the kernel's verdict on a map request: the deterministic half
    /// of [`Shm::map`], verified for every status.
    ///
    /// On `Okay` it consumes the unmapped region and returns the mapped one,
    /// with handle and label carried over and the cache dropped; on any
    /// other status it hands the region back untouched beside the status.
    pub fn complete_map(self, status: KernelStatus) -> (r: Result<
        Shm<Mapped>,
        (Shm<Unmapped>, KernelStatus),
    >)
        ensures
            status == KernelStatus::Okay ==> (r matches Ok(m) && m@ == invalidated(self@)),
            status != KernelStatus::Okay ==> (r matches Err(p) && p.0@ == self@ && p.1 == status),
    {
        match status {
            KernelStatus::Okay => Ok(
                Shm {
                    handle: self.handle,
                    label: self.label,
                    info_cache: None,
                    fetches: self.fetches,
                    _state: PhantomData,
                },
            ),
            s => Err((self, s)),
        }
    }

    /// Asks the kernel to map the region and, on success, turns this value
    /// into a [`Shm<Mapped>`]. The target task is advisory at this layer:
    /// the kernel maps for the calling task's credentials.
    ///
    /// # Errors
    /// On any failing status the region is handed back unchanged, still
    /// unmapped, beside the status: the caller may simply retry.
    pub fn map(self, _to_task: u32) -> (r: Result<Shm<Mapped>, (Shm<Unmapped>, KernelStatus)>)
        ensures
            r matches Ok(m) ==> m@ == invalidated(self@),
            r matches Err(p) ==> p.0@ == self@ && p.1 != KernelStatus::Okay,
    {
        let status = status_of(sentry_uapi::syscall::map_shm(self.handle));
        self.complete_map(status)
    }

    /// Applies the kernel's verdict on a credential change: the
    /// deterministic half of [`Shm::set_credentials`], verified for every
    /// status. On `Okay` the cache is dropped, since the permissions
    /// reported by later queries may have changed; on any other status
    /// nothing changes.
    pub fn complete_set_credentials(&mut self, status: KernelStatus) -> (r: Result<
        (),
        KernelStatus,
    >)
        ensures
            status == KernelStatus::Okay ==> r == Ok::<(), KernelStatus>(()) && final(self)@
                == invalidated(old(self)@),
            status != KernelStatus::Okay ==> r == Err::<(), KernelStatus>(status) && final(self)@
                == old(self)@,
    {
        match status {
            KernelStatus::Okay => {
                self.info_cache = None;
                Ok(())
            },
            s => Err(s),
        }
    }

    /// Sets which task may access the region and with what rights, `perms`
    /// being an OR of the `SHM_PERM_*` bits. Only legal before mapping,
    /// which the type state enforces.
    ///
    /// # Errors
    /// Propagates the kernel's status; the region is then unchanged.
    pub fn set_credentials(&mut self, to_task: u32, perms: u32) -> (r: Result<(), KernelStatus>)
        ensures
            r matches Ok(_) ==> final(self)@ == invalidated(old(self)@),
            r matches Err(s) ==> s != KernelStatus::Okay && final(self)@ == old(self)@,
    {
        let status = status_of(
            sentry_uapi::syscall::shm_set_credential(self.handle, to_task, perms),
        );
        self.complete_set_credentials(status)
    }
}

impl Shm<Mapped> {
    /// Applies the kernel's verdict on an unmap request: the deterministic
    /// half of [`Shm::unmap`], verified for every status.
    ///
    /// On `Okay` it consumes the mapped region and returns the unmapped
    /// one, with handle and label carried over and the cache dropped; on any
    /// other status it hands the region back untouched beside the status.
    pub fn complete_unmap(self, status: KernelStatus) -> (r: Result<
        Shm<Unmapped>,
        (Shm<Mapped>, KernelStatus),
    >)
        ensures
            status == KernelStatus::Okay ==> (r matches Ok(u) && u@ == invalidated(self@)),
            status != KernelStatus::Okay ==> (r matches Err(p) && p.0@ == self@ && p.1 == status),
    {
        match status {
            KernelStatus::Okay => Ok(
                Shm {
                    handle: self.handle,
                    label: self.label,
                    info_cache: None,
                    fetches: self.fetches,
                    _state: PhantomData,
                },
            ),
            s => Err((self, s)),
        }
    }

    /// Asks the kernel to unmap the region and, on success, turns this
    /// value back into a [`Shm<Unmapped>`].
    ///
    /// # Errors
    /// On any failing status the region is handed back unchanged, still
    /// mapped, beside the status: the caller may simply retry.
    pub fn unmap(self) -> (r: Result<Shm<Unmapped>, (Shm<Mapped>, KernelStatus)>)
        ensures
            r matches Ok(u) ==> u@ == invalidated(self@),
            r matches Err(p) ==> p.0@ == self@ && p.1 != KernelStatus::Okay,
    {
        let status = status_of(sentry_uapi::syscall::unmap_shm(self.handle));
        self.complete_unmap(status)
    }
}

/// The model after `n` successful map-unmap round trips.
pub open spec fn round_trips(m: RegionModel, n: nat) -> RegionModel
    decreases n,
{
    if n == 0 {
        m
    } else {
        invalidated(invalidated(round_trips(m, (n - 1) as nat)))
    }
}

/// Law: a successful `map` followed by a successful `unmap` yields a region
/// with the handle and label it started with and an empty cache —
/// indistinguishable from any freshly mapped-then-unmapped region over the
/// same handle.
pub proof fn lemma_map_unmap_round_trip(m: RegionModel)
    ensures
        invalidated(invalidated(m)).handle == m.handle,
        invalidated(invalidated(m)).label == m.label,
        invalidated(invalidated(m)).cache is None,
        invalidated(invalidated(m)).fetches == m.fetches,
{
}

/// Law: repeating the map-unmap pair any number of times preserves the
/// region's identity and, after at least one round, leaves the cache empty;
/// no round can ever see a descriptor cached before the previous one.
pub proof fn lemma_repeated_round_trips(m: RegionModel, n: nat)
    ensures
        round_trips(m, n).handle == m.handle,
        round_trips(m, n).label == m.label,
        round_trips(m, n).fetches == m.fetches,
        n > 0 ==> round_trips(m, n).cache is None,
    decreases n,
{
    if n > 0 {
        lemma_repeated_round_trips(m, (n - 1) as nat);
    }
}

/// Law (cache coherence): every successful state-changing operation leaves
/// the cache empty, so the info query that follows it cannot reuse any
/// descriptor cached before the operation — by [`query_step`] it must cost
/// exactly one fresh kernel exchange.
pub proof fn lemma_cache_coherence(m: RegionModel, post: RegionModel)
    requires
        query_step(invalidated(m), post),
    ensures
        post.fetches == m.fetches + 1,
{
}

/// Law (cache reuse): once an info query has filled the cache, a second
/// query with no state-changing operation in between changes nothing and
/// performs no exchange: the two calls cost exactly one exchange in all.
pub proof fn lemma_cache_reuse(m: RegionModel, mid: RegionModel, post: RegionModel)
    requires
        m.cache is None,
        query_step(m, mid),
        mid.cache is Some,
        query_step(mid, post),
    ensures
        post == mid,
        post.fetches == m.fetches + 1,
{
}

} // verus!
