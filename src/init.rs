//! Kernel-wide state set up at boot: the published kernel information
//! snapshot and the driver registry, with the operations the rest of the
//! kernel uses on them.

use vstd::prelude::*;
use crate::drivers::{accepts_any_snapshot, built_from, DriverRegistry};
use crate::kernel_information::{snapshot_matches, BootData, KernelInformation};

verus! {

/// The state that boot establishes: the snapshot, written once, and the
/// driver registry.
pub struct KernelState<A, R, D> {
    information: Option<KernelInformation<A>>,
    drivers: DriverRegistry<A, R, D>,
}

impl<A: Copy, R: Fn(KernelInformation<A>) -> D, D> KernelState<A, R, D> {
    /// The published snapshot, or `None` before boot published it.
    pub closed spec fn information(&self) -> Option<KernelInformation<A>> {
        self.information
    }

    /// The driver registry.
    pub closed spec fn registry(&self) -> DriverRegistry<A, R, D> {
        self.drivers
    }

    /// The registry is well formed.
    pub open spec fn wf(&self) -> bool {
        self.registry().wf()
    }

    /// State before boot: nothing published, no registrators, no drivers.
    pub fn new() -> (r: Self)
        ensures
            r.wf(),
            r.information() is None,
            r.registry().registrator_seq() == Seq::<R>::empty(),
            r.registry().driver_seq() == Seq::<D>::empty(),
    {
        KernelState { information: None, drivers: DriverRegistry::new() }
    }

    /// Whether boot has published the snapshot.
    pub fn is_initialized(&self) -> (r: bool)
        ensures
            r == self.information() is Some,
    {
        self.information.is_some()
    }

    /// The drivers built at the last reload, in registration order.
    pub fn drivers(&self) -> (r: &Vec<D>)
        ensures
            r@ == self.registry().driver_seq(),
    {
        self.drivers.drivers()
    }
}

/// Builds the kernel information snapshot from the boot data and the frame
/// allocator's handle, publishes it,
/// and returns it. The snapshot is written once: boot runs this exactly once,
/// after memory is set up and before interrupts are enabled.
pub fn init<A: Copy, R: Fn(KernelInformation<A>) -> D, D>(
    state: &mut KernelState<A, R, D>,
    boot_info: &BootData,
    frame_allocator: A,
) -> (r: KernelInformation<A>)
    requires
        old(state).wf(),
        old(state).information() is None,
    ensures
        final(state).wf(),
        snapshot_matches(r, *boot_info),
        r.frame_allocator == frame_allocator,
        final(state).information() == Some(r),
        final(state).registry() == old(state).registry(),
{
    let kernel_info = KernelInformation::new(boot_info, frame_allocator);
    publish_kernel_information(state, kernel_info);
    kernel_info
}

/// Publishes a snapshot to kernel-wide state. It is written once: publishing
/// a second time is a programming error, which the precondition rules out.
pub fn publish_kernel_information<A: Copy, R: Fn(KernelInformation<A>) -> D, D>(
    state: &mut KernelState<A, R, D>,
    info: KernelInformation<A>,
)
    requires
        old(state).wf(),
        old(state).information() is None,
    ensures
        final(state).wf(),
        final(state).information() == Some(info),
        final(state).registry() == old(state).registry(),
{
    state.information = Some(info);
}

/// The published snapshot. Reading it before boot published it is a
/// programming error, which the precondition rules out.
pub fn get_kernel_information<A: Copy, R: Fn(KernelInformation<A>) -> D, D>(
    state: &KernelState<A, R, D>,
) -> (r: KernelInformation<A>)
    requires
        state.information() is Some,
    ensures
        state.information() == Some(r),
{
    state.information.unwrap()
}

/// Rebuilds every driver from its registrator, in registration order, against
/// the published snapshot. Drivers from before are dropped.
pub fn reload_drivers<A: Copy, R: Fn(KernelInformation<A>) -> D, D>(state: &mut KernelState<A, R, D>)
    requires
        old(state).wf(),
        old(state).information() is Some,
    ensures
        final(state).wf(),
        final(state).information() == old(state).information(),
        final(state).registry().registrator_seq() == old(state).registry().registrator_seq(),
        built_from(
            final(state).registry().driver_seq(),
            final(state).registry().registrator_seq(),
            old(state).information().unwrap(),
        ),
{
    let kernel_info = get_kernel_information(state);
    state.drivers.reload(kernel_info);
}

/// Registers a driver. Its driver is built at the next call of
/// `reload_drivers`.
pub fn register_driver<A: Copy, R: Fn(KernelInformation<A>) -> D, D>(
    state: &mut KernelState<A, R, D>,
    registrator: R,
)
    requires
        old(state).wf(),
        accepts_any_snapshot(registrator),
    ensures
        final(state).wf(),
        final(state).information() == old(state).information(),
        final(state).registry().registrator_seq() == old(state).registry().registrator_seq().push(
            registrator,
        ),
        final(state).registry().driver_seq() == old(state).registry().driver_seq(),
{
    state.drivers.register(registrator);
}

/// The snapshot that `init` returns and the one that `get_kernel_information`
/// reads right after it report the same bootloader version, the same
/// framebuffer and the same allocator handle.
pub proof fn lemma_published_snapshot_matches<A: Copy, R: Fn(KernelInformation<A>) -> D, D>(
    after_init: KernelState<A, R, D>,
    from_init: KernelInformation<A>,
    from_get: KernelInformation<A>,
)
    requires
        after_init.information() == Some(from_init),
        after_init.information() == Some(from_get),
    ensures
        from_init.bootloader_version@ == from_get.bootloader_version@,
        from_init.framebuffer == from_get.framebuffer,
        from_init.frame_allocator == from_get.frame_allocator,
{
}

} // verus!
