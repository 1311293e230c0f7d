use kernel_core::drivers::DriverRegistry;
use kernel_core::gdt::{build_gdt, stack_top, LoadStep, STACK_SIZE};
use kernel_core::init::{
    get_kernel_information, init, publish_kernel_information, register_driver, reload_drivers,
    KernelState,
};
use kernel_core::kernel_information::{
    BootData, BootFrameBuffer, FrameBufferInfo, KernelFrameBuffer, KernelInformation, PixelFormat,
};
use kernel_core::syscalls::{Caller, SyscallError, SyscallTable};
use x86_64::registers::segmentation::SegmentSelector;
use x86_64::structures::tss::TaskStateSegment;

/// Stands for the handle of the physical frame allocator.
type AllocatorHandle = u64;

const ALLOCATOR: AllocatorHandle = 0xa110c;

type Info = KernelInformation<AllocatorHandle>;

#[derive(Debug, PartialEq)]
struct Driver {
    name: &'static str,
    info: Info,
}

type Registrator = fn(Info) -> Driver;
type Handler = fn(u64, u64, Caller) -> u64;

fn driver_a(info: Info) -> Driver {
    Driver { name: "a", info }
}

fn driver_b(info: Info) -> Driver {
    Driver { name: "b", info }
}

fn returns_zero(_a: u64, _b: u64, _caller: Caller) -> u64 {
    0
}

fn returns_one(_a: u64, _b: u64, _caller: Caller) -> u64 {
    1
}

fn sum(a: u64, b: u64, _caller: Caller) -> u64 {
    a.wrapping_add(b)
}

fn thread_of(_a: u64, _b: u64, caller: Caller) -> u64 {
    caller.thread
}

fn caller() -> Caller {
    Caller { process: 3, thread: 7 }
}

fn boot_data_with_framebuffer() -> BootData {
    BootData {
        version_major: 0,
        version_minor: 10,
        version_patch: 13,
        framebuffer: Some(BootFrameBuffer {
            info: FrameBufferInfo {
                byte_len: 1024 * 768 * 4,
                horizontal_resolution: 1024,
                vertical_resolution: 768,
                pixel_format: PixelFormat::Bgr,
                bytes_per_pixel: 4,
                stride: 1024,
            },
            buffer_start: 0xfd00_0000,
        }),
    }
}

fn boot_data_without_framebuffer() -> BootData {
    BootData { version_major: 1, version_minor: 2, version_patch: 3, framebuffer: None }
}

fn snapshot() -> Info {
    KernelInformation::new(&boot_data_without_framebuffer(), ALLOCATOR)
}

#[test]
fn syscalls_zero_and_one_dispatch_to_their_handlers() {
    let mut table: SyscallTable<Handler> = SyscallTable::new();
    table.register(0, returns_zero);
    table.register(1, returns_one);
    assert_eq!(table.dispatch(0, 5, 6, caller()), Ok(0));
    assert_eq!(table.dispatch(1, 5, 6, caller()), Ok(1));
    assert_eq!(table.dispatch(2, 5, 6, caller()), Err(SyscallError::InvalidNumber(2)));
}

#[test]
fn dispatch_returns_handler_result_verbatim() {
    let mut table: SyscallTable<Handler> = SyscallTable::new();
    table.register(40, sum);
    table.register(41, thread_of);
    assert_eq!(table.dispatch(40, 20, 22, caller()), Ok(42));
    assert_eq!(table.dispatch(40, u64::MAX, 1, caller()), Ok(0));
    assert_eq!(table.dispatch(41, 0, 0, caller()), Ok(7));
}

#[test]
fn dispatch_on_empty_table_is_an_error() {
    let table: SyscallTable<Handler> = SyscallTable::new();
    assert_eq!(table.dispatch(0, 0, 0, caller()), Err(SyscallError::InvalidNumber(0)));
    assert_eq!(table.dispatch(u64::MAX, 0, 0, caller()), Err(SyscallError::InvalidNumber(u64::MAX)));
    assert!(!table.is_registered(0));
}

#[test]
fn registering_a_number_again_replaces_its_handler() {
    let mut table: SyscallTable<Handler> = SyscallTable::new();
    table.register(5, returns_zero);
    table.register(6, returns_one);
    table.register(5, sum);
    assert_eq!(table.dispatch(5, 2, 3, caller()), Ok(5));
    assert_eq!(table.dispatch(6, 2, 3, caller()), Ok(1));
    assert!(table.is_registered(5));
    assert!(table.is_registered(6));
    assert!(!table.is_registered(7));
}

#[test]
fn reload_builds_drivers_in_registration_order() {
    let info = snapshot();
    let mut registry: DriverRegistry<AllocatorHandle, Registrator, Driver> = DriverRegistry::new();
    registry.register(driver_a);
    registry.register(driver_b);
    assert!(registry.drivers().is_empty());
    registry.reload(info);
    assert_eq!(
        registry.drivers(),
        &vec![Driver { name: "a", info }, Driver { name: "b", info }]
    );
}

#[test]
fn reload_twice_gives_equal_driver_lists() {
    let info = snapshot();
    let mut registry: DriverRegistry<AllocatorHandle, Registrator, Driver> = DriverRegistry::new();
    registry.register(driver_b);
    registry.register(driver_a);
    registry.register(driver_b);
    registry.reload(info);
    let first: Vec<(&'static str, Info)> =
        registry.drivers().iter().map(|d| (d.name, d.info)).collect();
    registry.reload(info);
    let second: Vec<(&'static str, Info)> =
        registry.drivers().iter().map(|d| (d.name, d.info)).collect();
    assert_eq!(first.len(), 3);
    assert_eq!(first, second);
    assert_eq!(registry.registrator_count(), 3);
}

#[test]
fn registration_after_reload_waits_for_next_reload() {
    let info = snapshot();
    let mut registry: DriverRegistry<AllocatorHandle, Registrator, Driver> = DriverRegistry::new();
    registry.register(driver_a);
    registry.reload(info);
    registry.register(driver_b);
    assert_eq!(registry.drivers().len(), 1);
    registry.reload(info);
    assert_eq!(registry.drivers().len(), 2);
    assert_eq!(registry.drivers()[1].name, "b");
}

#[test]
fn reload_with_no_registrators_is_empty() {
    let mut registry: DriverRegistry<AllocatorHandle, Registrator, Driver> = DriverRegistry::new();
    registry.reload(snapshot());
    assert!(registry.drivers().is_empty());
    assert_eq!(registry.registrator_count(), 0);
}

#[test]
fn snapshot_records_boot_data() {
    let info = KernelInformation::new(&boot_data_with_framebuffer(), ALLOCATOR);
    assert_eq!(info.bootloader_version, [0, 10, 13]);
    assert_eq!(
        info.framebuffer,
        Some(KernelFrameBuffer {
            width: 1024,
            height: 768,
            format: PixelFormat::Bgr,
            bytes_per_pixel: 4,
            stride: 1024,
            buffer_start: 0xfd00_0000,
            buffer_len: 1024 * 768 * 4,
        })
    );
}

#[test]
fn snapshot_without_framebuffer() {
    let info = KernelInformation::new(&boot_data_without_framebuffer(), ALLOCATOR);
    assert_eq!(info.bootloader_version, [1, 2, 3]);
    assert_eq!(info.framebuffer, None);
    assert_eq!(info.frame_allocator, ALLOCATOR);
}

#[test]
fn init_and_get_report_the_same_snapshot() {
    let mut state: KernelState<AllocatorHandle, Registrator, Driver> = KernelState::new();
    assert!(!state.is_initialized());
    let boot = boot_data_with_framebuffer();
    let from_init = init(&mut state, &boot, ALLOCATOR);
    assert!(state.is_initialized());
    let from_get = get_kernel_information(&state);
    assert_eq!(from_init.bootloader_version, from_get.bootloader_version);
    assert_eq!(from_init.framebuffer, from_get.framebuffer);
    assert_eq!(from_init.frame_allocator, ALLOCATOR);
    assert_eq!(from_get.frame_allocator, ALLOCATOR);
    assert_eq!(from_init, KernelInformation::new(&boot, ALLOCATOR));
}

#[test]
fn kernel_state_reloads_registered_drivers() {
    let mut state: KernelState<AllocatorHandle, Registrator, Driver> = KernelState::new();
    let info = init(&mut state, &boot_data_without_framebuffer(), ALLOCATOR);
    register_driver(&mut state, driver_a);
    register_driver(&mut state, driver_b);
    assert!(state.drivers().is_empty());
    reload_drivers(&mut state);
    assert_eq!(state.drivers(), &vec![Driver { name: "a", info }, Driver { name: "b", info }]);
    reload_drivers(&mut state);
    assert_eq!(state.drivers().len(), 2);
}

fn leaked_tss() -> &'static TaskStateSegment {
    Box::leak(Box::new(TaskStateSegment::new()))
}

#[test]
fn gdt_selectors_are_distinct_and_non_zero() {
    let domain = build_gdt(leaked_tss());
    let all = [
        domain.kernel.code_selector.0,
        domain.kernel.data_selector.0,
        domain.user.code_selector.0,
        domain.user.data_selector.0,
        domain.kernel.tss_selector.0,
    ];
    for i in 0..all.len() {
        assert_ne!(all[i], 0);
        for j in (i + 1)..all.len() {
            assert_ne!(all[i], all[j]);
        }
    }
}

#[test]
fn gdt_selector_values_follow_declaration_order() {
    let domain = build_gdt(leaked_tss());
    assert_eq!(domain.kernel.code_selector.0, 8);
    assert_eq!(domain.kernel.data_selector.0, 16);
    assert_eq!(domain.user.data_selector.0, 27);
    assert_eq!(domain.user.code_selector.0, 35);
    assert_eq!(domain.kernel.tss_selector.0, 40);
    assert_eq!(domain.user.tss_selector.0, 40);
    assert_eq!(domain.gdt.as_raw_slice().len(), 7);
    assert_eq!(domain.gdt.as_raw_slice()[1], 0x00af9b000000ffff);
    assert_eq!(domain.gdt.as_raw_slice()[3], 0x00cff3000000ffff);
}

#[test]
fn load_steps_run_code_then_task_register_then_data() {
    let domain = build_gdt(leaked_tss());
    assert_eq!(
        domain.load_steps(),
        vec![
            LoadStep::Table,
            LoadStep::CodeSegment(SegmentSelector(8)),
            LoadStep::TaskRegister(SegmentSelector(40)),
            LoadStep::StackSegment(SegmentSelector(16)),
            LoadStep::DataSegment(SegmentSelector(16)),
            LoadStep::ExtraSegment(SegmentSelector(16)),
        ]
    );
}

#[test]
fn stack_top_is_start_plus_stack_size() {
    assert_eq!(STACK_SIZE, 4096);
    assert_eq!(stack_top(0x1000), 0x2000);
    assert_eq!(stack_top(0), 4096);
    assert_eq!(stack_top(u64::MAX - 4096), u64::MAX);
}

#[test]
fn published_snapshot_is_read_back() {
    let mut state: KernelState<AllocatorHandle, Registrator, Driver> = KernelState::new();
    let info = KernelInformation::new(&boot_data_with_framebuffer(), ALLOCATOR);
    publish_kernel_information(&mut state, info);
    assert!(state.is_initialized());
    assert_eq!(get_kernel_information(&state), info);
}
