//! The capabilities a queue needs from the context it is flushed to.
use crate::command::{Command, Extent3d, RenderResource};
use vstd::prelude::*;

verus! {

/// A context that issues transfer and release operations to a device.
///
/// The queue knows a context only through these three operations. Each one
/// is described by what it adds to [`issued`](RenderContext::issued), the
/// history of what the context has been asked to do: exactly one entry, the
/// command that names the operation and carries its arguments.
pub trait RenderContext {
    /// The operations this context has been asked to perform, oldest first.
    ///
    /// A context written in verified code defines its history here and
    /// proves the three contracts below against it; with the empty history
    /// given here none of them can be proved. The body is there for a
    /// context written outside verified code, which has no way to name a
    /// history.
    open spec fn issued(&self) -> Seq<Command> {
        Seq::empty()
    }

    /// Copies `size` bytes between two buffers.
    fn copy_buffer_to_buffer(
        &mut self,
        source_buffer: RenderResource,
        source_offset: u64,
        destination_buffer: RenderResource,
        destination_offset: u64,
        size: u64,
    )
        ensures
            final(self).issued() == old(self).issued().push(
                Command::CopyBufferToBuffer {
                    source_buffer,
                    source_offset,
                    destination_buffer,
                    destination_offset,
                    size,
                },
            ),
    ;

    /// Copies a region of a buffer into a texture.
    fn copy_buffer_to_texture(
        &mut self,
        source_buffer: RenderResource,
        source_offset: u64,
        source_bytes_per_row: u32,
        destination_texture: RenderResource,
        destination_origin: [u32; 3],
        destination_mip_level: u32,
        destination_array_layer: u32,
        size: Extent3d,
    )
        ensures
            final(self).issued() == old(self).issued().push(
                Command::CopyBufferToTexture {
                    source_buffer,
                    source_offset,
                    source_bytes_per_row,
                    destination_texture,
                    destination_origin,
                    destination_mip_level,
                    destination_array_layer,
                    size,
                },
            ),
    ;

    /// Removes `buffer` through the context's resource manager.
    fn remove_buffer(&mut self, buffer: RenderResource)
        ensures
            final(self).issued() == old(self).issued().push(Command::FreeBuffer(buffer)),
    ;
}

} // verus!
