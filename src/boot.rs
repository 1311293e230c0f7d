//! The boot coordinator: the fixed order in which boot brings up the kernel's
//! subsystems. Boot runs once and cannot retry, so a step is accepted only
//! when every step before it is done.

use vstd::prelude::*;

verus! {

/// One step of boot.
#[derive(Clone, Copy, Debug, PartialEq, Eq, Structural)]
pub enum BootStep {
    /// Print and check the bootloader's memory map.
    PrintMemoryMap,
    /// Keep a copy of the memory regions the kernel itself occupies.
    SaveKernelMemory,
    /// Set up the physical frame allocator from the memory map.
    InitFrameAllocator,
    /// Set up paging with that allocator.
    InitPaging,
    /// Build the kernel information snapshot.
    CreateSnapshot,
    /// Build the protection domain and load it into the CPU.
    LoadProtectionDomain,
    /// Install the interrupt table.
    InstallInterruptTable,
    /// Fill the syscall dispatch table with the built-in handlers.
    RegisterSyscalls,
    /// Enable interrupts.
    EnableInterrupts,
    /// Publish the snapshot to kernel-wide state.
    PublishSnapshot,
}

/// The number of boot steps.
pub const BOOT_STEP_COUNT: usize = 10;

/// The boot order.
pub open spec fn boot_order() -> Seq<BootStep> {
    seq![
        BootStep::PrintMemoryMap,
        BootStep::SaveKernelMemory,
        BootStep::InitFrameAllocator,
        BootStep::InitPaging,
        BootStep::CreateSnapshot,
        BootStep::LoadProtectionDomain,
        BootStep::InstallInterruptTable,
        BootStep::RegisterSyscalls,
        BootStep::EnableInterrupts,
        BootStep::PublishSnapshot,
    ]
}

/// Why a step was refused.
#[derive(Clone, Copy, Debug, PartialEq, Eq, Structural)]
pub enum BootError {
    /// The step reported done is not the one that was due.
    OutOfOrder { expected: BootStep, found: BootStep },
    /// Every step is already done.
    AlreadyBooted,
}

/// Tracks how far boot has come.
pub struct BootCoordinator {
    completed: usize,
}

/// The step at `i` in the boot order.
fn step_at(i: usize) -> (r: BootStep)
    requires
        i < BOOT_STEP_COUNT,
    ensures
        r == boot_order()[i as int],
{
    match i {
        0 => BootStep::PrintMemoryMap,
        1 => BootStep::SaveKernelMemory,
        2 => BootStep::InitFrameAllocator,
        3 => BootStep::InitPaging,
        4 => BootStep::CreateSnapshot,
        5 => BootStep::LoadProtectionDomain,
        6 => BootStep::InstallInterruptTable,
        7 => BootStep::RegisterSyscalls,
        8 => BootStep::EnableInterrupts,
        _ => BootStep::PublishSnapshot,
    }
}

impl BootCoordinator {
    /// The steps done so far, a prefix of the boot order.
    pub closed spec fn done(&self) -> Seq<BootStep> {
        boot_order().take(self.completed as int)
    }

    pub closed spec fn wf(&self) -> bool {
        self.completed <= BOOT_STEP_COUNT
    }

    /// Boot before its first step.
    pub fn new() -> (r: Self)
        ensures
            r.wf(),
            r.done() == Seq::<BootStep>::empty(),
    {
        let r = BootCoordinator { completed: 0 };
        assert(r.done() =~= Seq::<BootStep>::empty());
        r
    }

    /// The step that is due, or `None` once boot is complete.
    pub fn next_step(&self) -> (r: Option<BootStep>)
        requires
            self.wf(),
        ensures
            r == (if self.done().len() < boot_order().len() {
                Some(boot_order()[self.done().len() as int])
            } else {
                None
            }),
    {
        if self.completed < BOOT_STEP_COUNT {
            Some(step_at(self.completed))
        } else {
            None
        }
    }

    /// Records that `step` is done. It is accepted only if it is the step
    /// that is due; otherwise nothing changes.
    pub fn complete(&mut self, step: BootStep) -> (r: Result<(), BootError>)
        requires
            old(self).wf(),
        ensures
            final(self).wf(),
            match r {
                Ok(()) => {
                    &&& old(self).done().len() < boot_order().len()
                    &&& step == boot_order()[old(self).done().len() as int]
                    &&& final(self).done() == old(self).done().push(step)
                },
                Err(BootError::AlreadyBooted) => {
                    &&& old(self).done().len() == boot_order().len()
                    &&& final(self).done() == old(self).done()
                },
                Err(BootError::OutOfOrder { expected, found }) => {
                    &&& old(self).done().len() < boot_order().len()
                    &&& expected == boot_order()[old(self).done().len() as int]
                    &&& found == step
                    &&& expected != step
                    &&& final(self).done() == old(self).done()
                },
            },
    {
        if self.completed >= BOOT_STEP_COUNT {
            return Err(BootError::AlreadyBooted);
        }
        let expected = step_at(self.completed);
        if expected != step {
            return Err(BootError::OutOfOrder { expected, found: step });
        }
        self.completed = self.completed + 1;
        assert(self.done() =~= old(self).done().push(step));
        Ok(())
    }

    /// Whether every step is done.
    pub fn is_complete(&self) -> (r: bool)
        requires
            self.wf(),
        ensures
            r == (self.done() == boot_order()),
    {
        proof {
            if self.completed < BOOT_STEP_COUNT {
                assert(self.done().len() != boot_order().len());
            } else {
                assert(self.done() =~= boot_order());
            }
        }
        self.completed == BOOT_STEP_COUNT
    }
}

} // verus!
