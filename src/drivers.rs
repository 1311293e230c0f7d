//! The driver registry: an ordered list of driver constructors, and the
//! drivers they built at the last reload.

use vstd::prelude::*;
use core::marker::PhantomData;
use crate::kernel_information::KernelInformation;

verus! {

/// Holds the registrators (deferred driver constructors, each a function from
/// the kernel information snapshot to a driver) and the drivers that the last
/// reload built from them. `A` is the type of the snapshot's allocator handle.
pub struct DriverRegistry<A, R, D> {
    registrators: Vec<R>,
    drivers: Vec<D>,
    snapshot: PhantomData<A>,
}

/// `drivers` is what running each of `registrators`, in order, on `info`
/// gives: one driver per registrator, at the same position.
pub open spec fn built_from<A: Copy, R: Fn(KernelInformation<A>) -> D, D>(
    drivers: Seq<D>,
    registrators: Seq<R>,
    info: KernelInformation<A>,
) -> bool {
    &&& drivers.len() == registrators.len()
    &&& forall|i: int|
        0 <= i < drivers.len() ==> call_ensures(registrators[i], (info,), #[trigger] drivers[i])
}

/// A registrator may be run on any snapshot.
pub open spec fn accepts_any_snapshot<A: Copy, R: Fn(KernelInformation<A>) -> D, D>(r: R) -> bool {
    forall|info: KernelInformation<A>| call_requires(r, (info,))
}

impl<A: Copy, R: Fn(KernelInformation<A>) -> D, D> DriverRegistry<A, R, D> {
    /// The registrators, in registration order.
    pub closed spec fn registrator_seq(&self) -> Seq<R> {
        self.registrators@
    }

    /// The drivers built at the last reload.
    pub closed spec fn driver_seq(&self) -> Seq<D> {
        self.drivers@
    }

    /// Every registrator may be run on any snapshot.
    pub open spec fn wf(&self) -> bool {
        forall|i: int|
            0 <= i < self.registrator_seq().len() ==> accepts_any_snapshot(
                #[trigger] self.registrator_seq()[i],
            )
    }

    /// An empty registry: no registrators, no drivers.
    pub fn new() -> (r: Self)
        ensures
            r.wf(),
            r.registrator_seq() == Seq::<R>::empty(),
            r.driver_seq() == Seq::<D>::empty(),
    {
        DriverRegistry { registrators: Vec::new(), drivers: Vec::new(), snapshot: PhantomData }
    }

    /// Appends a registrator. The drivers stay as they are: the new one is
    /// built at the next reload.
    pub fn register(&mut self, registrator: R)
        requires
            old(self).wf(),
            accepts_any_snapshot(registrator),
        ensures
            final(self).wf(),
            final(self).registrator_seq() == old(self).registrator_seq().push(registrator),
            final(self).driver_seq() == old(self).driver_seq(),
    {
        self.registrators.push(registrator);
        assert forall|i: int| 0 <= i < self.registrator_seq().len() implies accepts_any_snapshot(
            #[trigger] self.registrator_seq()[i],
        ) by {
            if i < old(self).registrator_seq().len() {
                assert(self.registrator_seq()[i] == old(self).registrator_seq()[i]);
            }
        }
    }

    /// Drops every driver and builds them anew by running each registrator,
    /// in registration order, on `info`.
    pub fn reload(&mut self, info: KernelInformation<A>)
        requires
            old(self).wf(),
        ensures
            final(self).wf(),
            final(self).registrator_seq() == old(self).registrator_seq(),
            built_from(final(self).driver_seq(), final(self).registrator_seq(), info),
    {
        self.drivers.clear();
        assert(self.registrator_seq() == old(self).registrator_seq());
        let n = self.registrators.len();
        let mut i: usize = 0;
        while i < n
            invariant
                self.wf(),
                n == self.registrator_seq().len(),
                self.registrator_seq() == old(self).registrator_seq(),
                0 <= i <= n,
                self.driver_seq().len() == i,
                forall|j: int|
                    0 <= j < i ==> call_ensures(
                        self.registrator_seq()[j],
                        (info,),
                        #[trigger] self.driver_seq()[j],
                    ),
            decreases n - i,
        {
            let driver = (self.registrators[i])(info);
            self.drivers.push(driver);
            i = i + 1;
        }
    }

    /// The drivers built at the last reload, in registration order.
    pub fn drivers(&self) -> (r: &Vec<D>)
        ensures
            r@ == self.driver_seq(),
    {
        &self.drivers
    }

    /// The number of registrators.
    pub fn registrator_count(&self) -> (r: usize)
        ensures
            r == self.registrator_seq().len(),
    {
        self.registrators.len()
    }
}

/// A registrator that, run twice on one snapshot, builds equal drivers.
pub open spec fn is_deterministic<A: Copy, R: Fn(KernelInformation<A>) -> D, D>(r: R) -> bool {
    forall|info: KernelInformation<A>, d1: D, d2: D|
        call_ensures(r, (info,), d1) && call_ensures(r, (info,), d2) ==> d1 == d2
}

/// After a reload, whatever registrations came before it, the drivers follow
/// the registrators: as many of them, and the driver at each position built
/// by the registrator at that position.
pub proof fn lemma_drivers_follow_registrators<A: Copy, R: Fn(KernelInformation<A>) -> D, D>(
    registry: DriverRegistry<A, R, D>,
    info: KernelInformation<A>,
)
    requires
        built_from(registry.driver_seq(), registry.registrator_seq(), info),
    ensures
        registry.driver_seq().len() == registry.registrator_seq().len(),
        forall|i: int|
            0 <= i < registry.driver_seq().len() ==> call_ensures(
                registry.registrator_seq()[i],
                (info,),
                #[trigger] registry.driver_seq()[i],
            ),
{
}

/// Two reloads with no registration between them build driver sequences of
/// equal length, each driver built by the same registrator from the same
/// snapshot; where every registrator is deterministic, the two sequences are
/// equal.
pub proof fn lemma_reload_twice<A: Copy, R: Fn(KernelInformation<A>) -> D, D>(
    first: DriverRegistry<A, R, D>,
    second: DriverRegistry<A, R, D>,
    info: KernelInformation<A>,
)
    requires
        second.registrator_seq() == first.registrator_seq(),
        built_from(first.driver_seq(), first.registrator_seq(), info),
        built_from(second.driver_seq(), second.registrator_seq(), info),
    ensures
        first.driver_seq().len() == second.driver_seq().len(),
        forall|i: int|
            0 <= i < first.driver_seq().len() ==> call_ensures(
                first.registrator_seq()[i],
                (info,),
                #[trigger] first.driver_seq()[i],
            ) && call_ensures(first.registrator_seq()[i], (info,), second.driver_seq()[i]),
        (forall|i: int|
            0 <= i < first.registrator_seq().len() ==> is_deterministic(
                #[trigger] first.registrator_seq()[i],
            )) ==> first.driver_seq() == second.driver_seq(),
{
    if forall|i: int|
        0 <= i < first.registrator_seq().len() ==> is_deterministic(
            #[trigger] first.registrator_seq()[i],
        ) {
        assert forall|i: int| 0 <= i < first.driver_seq().len() implies first.driver_seq()[i]
            == second.driver_seq()[i] by {
            let r = first.registrator_seq()[i];
            assert(is_deterministic(r));
            assert(call_ensures(r, (info,), first.driver_seq()[i]));
            assert(call_ensures(r, (info,), second.driver_seq()[i]));
        }
        assert(first.driver_seq() =~= second.driver_seq());
    }
}

} // verus!
