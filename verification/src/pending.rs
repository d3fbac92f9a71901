//! The sequence of pending commands, as one owner sees it.
//!
//! [`Pending`] is what a queue keeps behind its lock. Whoever holds it has
//! it alone, so each operation has an exact contract over the sequence of
//! pending commands and the history of the render context.
use crate::command::{Command, Extent3d, RenderResource};
use crate::render_context::RenderContext;
use vstd::prelude::*;

verus! {

/// Commands recorded and not yet dispatched, oldest first.
pub struct Pending {
    commands: Vec<Command>,
}

impl View for Pending {
    type V = Seq<Command>;

    closed spec fn view(&self) -> Seq<Command> {
        self.commands@
    }
}

impl Pending {
    /// Nothing pending.
    pub fn new() -> (pending: Pending)
        ensures
            pending@ == Seq::<Command>::empty(),
    {
        Pending { commands: Vec::new() }
    }

    /// Appends `command` behind the commands already pending.
    pub fn push(&mut self, command: Command)
        ensures
            final(self)@ == old(self)@.push(command),
    {
        self.commands.push(command);
    }

    /// Records a copy of `size` bytes from `source_buffer` to
    /// `destination_buffer`, behind everything already pending.
    pub fn copy_buffer_to_buffer(
        &mut self,
        source_buffer: RenderResource,
        source_offset: u64,
        destination_buffer: RenderResource,
        destination_offset: u64,
        size: u64,
    )
        ensures
            final(self)@ == old(self)@.push(
                Command::CopyBufferToBuffer {
                    source_buffer,
                    source_offset,
                    destination_buffer,
                    destination_offset,
                    size,
                },
            ),
    {
        self.push(
            Command::CopyBufferToBuffer {
                source_buffer,
                source_offset,
                destination_buffer,
                destination_offset,
                size,
            },
        );
    }

    /// Records a copy from `source_buffer` into `destination_texture`,
    /// behind everything already pending.
    pub fn copy_buffer_to_texture(
        &mut self,
        source_buffer: RenderResource,
        source_offset: u64,
        source_bytes_per_row: u32,
        destination_texture: RenderResource,
        destination_origin: [u32; 3],
        destination_mip_level: u32,
        destination_array_layer: u32,
        size: Extent3d,
    )
        ensures
            final(self)@ == old(self)@.push(
                Command::CopyBufferToTexture {
                    source_buffer,
                    source_offset,
                    source_bytes_per_row,
                    destination_texture,
                    destination_origin,
                    destination_mip_level,
                    destination_array_layer,
                    size,
                },
            ),
    {
        self.push(
            Command::CopyBufferToTexture {
                source_buffer,
                source_offset,
                source_bytes_per_row,
                destination_texture,
                destination_origin,
                destination_mip_level,
                destination_array_layer,
                size,
            },
        );
    }

    /// Records the release of `buffer`, behind everything already pending.
    pub fn free_buffer(&mut self, buffer: RenderResource)
        ensures
            final(self)@ == old(self)@.push(Command::FreeBuffer(buffer)),
    {
        self.push(Command::FreeBuffer(buffer));
    }

    /// Moves every pending command out, in order, and leaves none behind.
    pub fn take(&mut self) -> (taken: Pending)
        ensures
            taken@ == old(self)@,
            final(self)@ == Seq::<Command>::empty(),
    {
        let mut commands: Vec<Command> = Vec::new();
        std::mem::swap(&mut self.commands, &mut commands);
        Pending { commands }
    }

    /// Removes every pending command and forwards each, oldest first, to the
    /// operation of `render_context` that matches it, with the command's
    /// fields as the arguments.
    ///
    /// The context's history grows by exactly what was pending: nothing is
    /// skipped, repeated, reordered or altered on the way. With nothing
    /// pending the context is not called at all.
    pub fn execute<R: RenderContext + ?Sized>(&mut self, render_context: &mut R)
        ensures
            final(self)@ == Seq::<Command>::empty(),
            final(render_context).issued() == old(render_context).issued() + old(self)@,
            old(self)@.len() == 0 ==> final(render_context).issued() == old(
                render_context,
            ).issued(),
    {
        let ghost before = render_context.issued();
        let mut commands: Vec<Command> = Vec::new();
        std::mem::swap(&mut self.commands, &mut commands);
        let mut next: usize = 0;
        while next < commands.len()
            invariant
                next <= commands.len(),
                render_context.issued() == before + commands@.take(next as int),
            decreases commands.len() - next,
        {
            match &commands[next] {
                Command::CopyBufferToBuffer {
                    source_buffer,
                    source_offset,
                    destination_buffer,
                    destination_offset,
                    size,
                } => render_context.copy_buffer_to_buffer(
                    *source_buffer,
                    *source_offset,
                    *destination_buffer,
                    *destination_offset,
                    *size,
                ),
                Command::CopyBufferToTexture {
                    source_buffer,
                    source_offset,
                    source_bytes_per_row,
                    destination_texture,
                    destination_origin,
                    destination_mip_level,
                    destination_array_layer,
                    size,
                } => render_context.copy_buffer_to_texture(
                    *source_buffer,
                    *source_offset,
                    *source_bytes_per_row,
                    *destination_texture,
                    *destination_origin,
                    *destination_mip_level,
                    *destination_array_layer,
                    *size,
                ),
                Command::FreeBuffer(buffer) => render_context.remove_buffer(*buffer),
            }
            assert(commands@.take(next + 1) == commands@.take(next as int).push(
                commands@[next as int],
            ));
            next = next + 1;
        }
        assert(commands@.take(commands.len() as int) == commands@);
        assert(commands@.len() == 0 ==> before + commands@ =~= before);
    }
}

} // verus!
