//! The commands a queue can hold: plain data, with no behaviour of their own.
use vstd::prelude::*;

verus! {

/// An opaque handle to a buffer or texture owned by the resource subsystem.
///
/// Nothing in this crate resolves or validates a handle; it is carried from
/// the producer to the render context as it is.
#[derive(Clone, Copy, Debug, PartialEq, Eq, Hash, Structural)]
pub struct RenderResource(pub u64);

/// The size of a texture region, in texels.
#[derive(Clone, Copy, Debug, PartialEq, Eq, Hash, Structural)]
pub struct Extent3d {
    pub width: u32,
    pub height: u32,
    pub depth: u32,
}

/// One recorded operation.
#[allow(inconsistent_fields)]
#[derive(Debug, PartialEq, Eq)]
pub enum Command {
    /// Copy `size` bytes from one buffer to another.
    CopyBufferToBuffer {
        source_buffer: RenderResource,
        source_offset: u64,
        destination_buffer: RenderResource,
        destination_offset: u64,
        size: u64,
    },
    /// Copy a region of a buffer into a texture.
    CopyBufferToTexture {
        source_buffer: RenderResource,
        source_offset: u64,
        source_bytes_per_row: u32,
        destination_texture: RenderResource,
        destination_origin: [u32; 3],
        destination_mip_level: u32,
        destination_array_layer: u32,
        size: Extent3d,
    },
    /// Release a buffer once the commands before it have used it.
    FreeBuffer(RenderResource),
}

} // verus!
