//! The protection domain: the segment descriptor table with kernel and user
//! segments and the task-state segment, the selectors the rest of the kernel
//! uses, and the order in which they are loaded into the CPU.

use vstd::prelude::*;
use x86_64::registers::segmentation::SegmentSelector;
use x86_64::structures::gdt::{Descriptor, GlobalDescriptorTable};
use x86_64::structures::tss::TaskStateSegment;

verus! {

/// x86_64's descriptor table, seen only through `gdt_entries`.
#[verifier::external_type_specification]
#[verifier::external_body]
pub struct ExGlobalDescriptorTable(GlobalDescriptorTable);

/// x86_64's task-state segment, carried through opaquely.
#[verifier::external_type_specification]
#[verifier::external_body]
pub struct ExTaskStateSegment(TaskStateSegment);

/// x86_64's segment descriptor, with its two public variants visible: the
/// contracts below speak of the words a descriptor holds.
#[verifier::external_type_specification]
pub struct ExDescriptor(Descriptor);

/// x86_64's segment selector, with its public `u16` field visible.
#[verifier::external_type_specification]
pub struct ExSegmentSelector(SegmentSelector);

/// The words a descriptor table holds, the null descriptor first.
pub uninterp spec fn gdt_entries(gdt: GlobalDescriptorTable) -> Seq<u64>;

/// The descriptor privilege level: bits 45 and 46 of the descriptor's low word.
pub open spec fn dpl_of(d: Descriptor) -> int {
    match d {
        Descriptor::UserSegment(v) => (v as int / 0x2000_0000_0000) % 4,
        Descriptor::SystemSegment(v, _) => (v as int / 0x2000_0000_0000) % 4,
    }
}

/// The number of table slots a descriptor takes.
pub open spec fn slots_of(d: Descriptor) -> int {
    match d {
        Descriptor::UserSegment(_) => 1,
        Descriptor::SystemSegment(_, _) => 2,
    }
}

/// Relies on GlobalDescriptorTable::new: a table that holds only the null
/// descriptor.
pub assume_specification[ GlobalDescriptorTable::new ]() -> (r: GlobalDescriptorTable)
    ensures
        gdt_entries(r) == seq![0u64],
;

/// Relies on GlobalDescriptorTable::add_entry: it appends the descriptor's
/// words (one for a user segment, two for a system segment) to a table of at
/// most eight words, and returns the selector of the first one, whose
/// requested privilege level is the descriptor's DPL.
pub assume_specification[ GlobalDescriptorTable::add_entry ](
    gdt: &mut GlobalDescriptorTable,
    entry: Descriptor,
) -> (r: SegmentSelector)
    requires
        gdt_entries(*old(gdt)).len() + slots_of(entry) <= 8,
    ensures
        gdt_entries(*final(gdt)) == match entry {
            Descriptor::UserSegment(v) => gdt_entries(*old(gdt)).push(v),
            Descriptor::SystemSegment(lo, hi) => gdt_entries(*old(gdt)).push(lo).push(hi),
        },
        r.0 as int == gdt_entries(*old(gdt)).len() * 8 + dpl_of(entry),
;

/// Relies on Descriptor::kernel_code_segment: the flat 64-bit ring-0 code
/// segment.
pub assume_specification[ Descriptor::kernel_code_segment ]() -> (r: Descriptor)
    ensures
        r == Descriptor::UserSegment(0x00af9b000000ffff),
;

/// Relies on Descriptor::kernel_data_segment: the flat ring-0 data segment.
pub assume_specification[ Descriptor::kernel_data_segment ]() -> (r: Descriptor)
    ensures
        r == Descriptor::UserSegment(0x00cf93000000ffff),
;

/// Relies on Descriptor::user_data_segment: the flat ring-3 data segment.
pub assume_specification[ Descriptor::user_data_segment ]() -> (r: Descriptor)
    ensures
        r == Descriptor::UserSegment(0x00cff3000000ffff),
;

/// Relies on Descriptor::user_code_segment: the flat 64-bit ring-3 code
/// segment.
pub assume_specification[ Descriptor::user_code_segment ]() -> (r: Descriptor)
    ensures
        r == Descriptor::UserSegment(0x00affb000000ffff),
;

/// Relies on Descriptor::tss_segment: a two-word system descriptor for the
/// task-state segment, with DPL 0.
pub assume_specification[ Descriptor::tss_segment ](tss: &'static TaskStateSegment) -> (r:
    Descriptor)
    ensures
        r is SystemSegment,
        dpl_of(r) == 0,
;

/// Size in bytes of each statically allocated kernel stack.
pub const STACK_SIZE: usize = 4096;

/// The interrupt-stack-table slot of the stack that double faults run on.
pub const DOUBLE_FAULT_IST_INDEX: u16 = 0;

/// The privilege-stack-table slot of the stack used on a switch to ring 0.
pub const PRIVILEGE_STACK_INDEX: u16 = 0;

/// The highest address of a stack that starts at `stack_start`: stacks grow
/// downwards, so this is where the stack pointer begins.
pub fn stack_top(stack_start: u64) -> (r: u64)
    requires
        stack_start + STACK_SIZE <= u64::MAX,
    ensures
        r == stack_start + STACK_SIZE,
{
    stack_start + STACK_SIZE as u64
}

/// The selectors of one privilege level.
pub struct Selectors {
    pub code_selector: SegmentSelector,
    pub data_selector: SegmentSelector,
    pub tss_selector: SegmentSelector,
}

/// The descriptor table together with the kernel's and user mode's selectors.
pub struct ProtectionDomain {
    pub gdt: GlobalDescriptorTable,
    pub kernel: Selectors,
    pub user: Selectors,
}

/// Selector values: index times eight plus the requested privilege level.
/// After the null descriptor, kernel code, kernel data, user data, user code
/// and the two words of the task-state segment follow in that order.
pub open spec fn has_standard_layout(d: ProtectionDomain) -> bool {
    &&& d.kernel.code_selector.0 == 8
    &&& d.kernel.data_selector.0 == 16
    &&& d.user.data_selector.0 == 3 * 8 + 3
    &&& d.user.code_selector.0 == 4 * 8 + 3
    &&& d.kernel.tss_selector == d.user.tss_selector
    &&& d.kernel.tss_selector.0 == 5 * 8
    &&& gdt_entries(d.gdt).len() == 7
    &&& gdt_entries(d.gdt).take(5) == seq![
        0u64,
        0x00af9b000000ffffu64,
        0x00cf93000000ffffu64,
        0x00cff3000000ffffu64,
        0x00affb000000ffffu64,
    ]
}

/// The five roles have selectors that are non-zero and pairwise distinct.
pub open spec fn roles_distinct(d: ProtectionDomain) -> bool {
    let s = seq![
        d.kernel.code_selector.0,
        d.kernel.data_selector.0,
        d.user.code_selector.0,
        d.user.data_selector.0,
        d.kernel.tss_selector.0,
    ];
    &&& forall|i: int| 0 <= i < 5 ==> s[i] != 0
    &&& forall|i: int, j: int| 0 <= i < j < 5 ==> s[i] != s[j]
}

/// Builds the descriptor table: kernel code, kernel data, user data, user
/// code and the task-state segment, in that order, which fixes the selector
/// values.
pub fn build_gdt(tss: &'static TaskStateSegment) -> (r: ProtectionDomain)
    ensures
        has_standard_layout(r),
        roles_distinct(r),
{
    let mut gdt = GlobalDescriptorTable::new();
    let kernel_code_selector = gdt.add_entry(Descriptor::kernel_code_segment());
    let kernel_data_selector = gdt.add_entry(Descriptor::kernel_data_segment());
    let user_data_selector = gdt.add_entry(Descriptor::user_data_segment());
    let user_code_selector = gdt.add_entry(Descriptor::user_code_segment());
    let ghost prefix = gdt_entries(gdt);
    assert(prefix =~= seq![
        0u64,
        0x00af9b000000ffffu64,
        0x00cf93000000ffffu64,
        0x00cff3000000ffffu64,
        0x00affb000000ffffu64,
    ]);
    let tss_selector = gdt.add_entry(Descriptor::tss_segment(tss));
    assert(gdt_entries(gdt).take(5) =~= prefix);
    let r = ProtectionDomain {
        gdt,
        kernel: Selectors {
            code_selector: kernel_code_selector,
            data_selector: kernel_data_selector,
            tss_selector: SegmentSelector(tss_selector.0),
        },
        user: Selectors {
            code_selector: user_code_selector,
            data_selector: user_data_selector,
            tss_selector,
        },
    };
    r
}

/// One step of loading the protection domain into the CPU.
#[derive(Clone, Copy, Debug, PartialEq, Eq)]
pub enum LoadStep {
    /// Load the descriptor table itself.
    Table,
    /// Set the code segment register.
    CodeSegment(SegmentSelector),
    /// Load the task register.
    TaskRegister(SegmentSelector),
    /// Set the stack segment register.
    StackSegment(SegmentSelector),
    /// Set the data segment register.
    DataSegment(SegmentSelector),
    /// Set the extra segment register.
    ExtraSegment(SegmentSelector),
}

impl ProtectionDomain {
    /// The order in which the domain is loaded: the table, then the kernel
    /// code selector, then the task register, then the stack, data and extra
    /// segment registers with the kernel data selector.
    pub fn load_steps(&self) -> (r: Vec<LoadStep>)
        ensures
            r@ == seq![
                LoadStep::Table,
                LoadStep::CodeSegment(self.kernel.code_selector),
                LoadStep::TaskRegister(self.kernel.tss_selector),
                LoadStep::StackSegment(self.kernel.data_selector),
                LoadStep::DataSegment(self.kernel.data_selector),
                LoadStep::ExtraSegment(self.kernel.data_selector),
            ],
    {
        let code = SegmentSelector(self.kernel.code_selector.0);
        let data = self.kernel.data_selector.0;
        let r = vec![
            LoadStep::Table,
            LoadStep::CodeSegment(code),
            LoadStep::TaskRegister(SegmentSelector(self.kernel.tss_selector.0)),
            LoadStep::StackSegment(SegmentSelector(data)),
            LoadStep::DataSegment(SegmentSelector(data)),
            LoadStep::ExtraSegment(SegmentSelector(data)),
        ];
        r
    }
}

} // verus!
