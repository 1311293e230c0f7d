//! Core coordination layer of a bare-metal kernel: the kernel information
//! snapshot, the protection-domain layout, the syscall dispatch table, the
//! driver registry and the boot-time state that ties them together.

pub mod kernel_information;
pub mod drivers;
pub mod syscalls;
pub mod gdt;
pub mod init;
pub mod boot;
