//! The kernel information snapshot: boot-time facts recorded once and shared
//! read-only afterwards.

use vstd::prelude::*;

verus! {

/// Layout of the pixels in a framebuffer.
#[derive(Clone, Copy, Debug, PartialEq, Eq, Structural)]
pub enum PixelFormat {
    /// One byte each of red, green and blue, in that order.
    Rgb,
    /// One byte each of blue, green and red, in that order.
    Bgr,
    /// A single byte of brightness.
    U8,
    /// A layout the kernel does not know.
    Unknown,
}

/// Geometry of a framebuffer as the bootloader reports it.
#[derive(Clone, Copy, Debug, PartialEq, Eq, Structural)]
pub struct FrameBufferInfo {
    pub byte_len: usize,
    pub horizontal_resolution: usize,
    pub vertical_resolution: usize,
    pub pixel_format: PixelFormat,
    pub bytes_per_pixel: usize,
    pub stride: usize,
}

/// A framebuffer handed over by the bootloader: its geometry and where its
/// bytes start in memory.
#[derive(Clone, Copy, Debug, PartialEq, Eq, Structural)]
pub struct BootFrameBuffer {
    pub info: FrameBufferInfo,
    pub buffer_start: u64,
}

/// The record the bootloader supplies, reduced to what the kernel keeps.
#[derive(Clone, Copy, Debug, PartialEq, Eq, Structural)]
pub struct BootData {
    pub version_major: u16,
    pub version_minor: u16,
    pub version_patch: u16,
    pub framebuffer: Option<BootFrameBuffer>,
}

/// The framebuffer as the kernel records it.
#[derive(Clone, Copy, Debug, PartialEq, Eq, Structural)]
pub struct KernelFrameBuffer {
    pub width: usize,
    pub height: usize,
    pub format: PixelFormat,
    pub bytes_per_pixel: usize,
    pub stride: usize,
    /// Address of the first byte of the buffer.
    pub buffer_start: u64,
    /// Number of bytes in the buffer.
    pub buffer_len: usize,
}

/// Boot-time facts: the bootloader's version triple, the framebuffer when
/// there is one, and a shared handle to the physical frame allocator. Copying
/// it copies the handle, never the allocator.
#[derive(Clone, Copy, Debug, PartialEq, Eq)]
pub struct KernelInformation<A> {
    pub bootloader_version: [u16; 3],
    pub framebuffer: Option<KernelFrameBuffer>,
    pub frame_allocator: A,
}

/// The framebuffer record made from what the bootloader reported.
pub open spec fn frame_buffer_of(b: BootFrameBuffer) -> KernelFrameBuffer {
    KernelFrameBuffer {
        width: b.info.horizontal_resolution,
        height: b.info.vertical_resolution,
        format: b.info.pixel_format,
        bytes_per_pixel: b.info.bytes_per_pixel,
        stride: b.info.stride,
        buffer_start: b.buffer_start,
        buffer_len: b.info.byte_len,
    }
}

/// The snapshot's version triple, in the order major, minor, patch.
pub open spec fn version_of(boot: BootData) -> Seq<u16> {
    seq![boot.version_major, boot.version_minor, boot.version_patch]
}

/// The framebuffer record of the boot data, if the bootloader gave one.
pub open spec fn boot_frame_buffer_of(boot: BootData) -> Option<KernelFrameBuffer> {
    match boot.framebuffer {
        Some(b) => Some(frame_buffer_of(b)),
        None => None,
    }
}

/// The snapshot records the boot data: its version triple and its framebuffer.
pub open spec fn snapshot_matches<A>(info: KernelInformation<A>, boot: BootData) -> bool {
    &&& info.bootloader_version@ == version_of(boot)
    &&& info.framebuffer == boot_frame_buffer_of(boot)
}

impl KernelFrameBuffer {
    /// Records a framebuffer from its geometry and its start address.
    pub fn new(buffer: &BootFrameBuffer) -> (r: KernelFrameBuffer)
        ensures
            r == frame_buffer_of(*buffer),
    {
        let info = buffer.info;
        KernelFrameBuffer {
            width: info.horizontal_resolution,
            height: info.vertical_resolution,
            format: info.pixel_format,
            bytes_per_pixel: info.bytes_per_pixel,
            stride: info.stride,
            buffer_start: buffer.buffer_start,
            buffer_len: info.byte_len,
        }
    }
}

impl<A: Copy> KernelInformation<A> {
    /// Builds the snapshot from the boot data and the allocator handle. There
    /// is no failure path: a missing framebuffer is recorded as `None`.
    pub fn new(boot_info: &BootData, frame_allocator: A) -> (r: KernelInformation<A>)
        ensures
            snapshot_matches(r, *boot_info),
            r.frame_allocator == frame_allocator,
    {
        let bootloader_version: [u16; 3] = [
            boot_info.version_major,
            boot_info.version_minor,
            boot_info.version_patch,
        ];
        let framebuffer = match &boot_info.framebuffer {
            Some(framebuffer) => Some(KernelFrameBuffer::new(framebuffer)),
            None => None,
        };
        let r = KernelInformation { bootloader_version, framebuffer, frame_allocator };
        assert(r.bootloader_version@ =~= version_of(*boot_info));
        r
    }
}

} // verus!
