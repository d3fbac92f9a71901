//! The shared queue handle.
use crate::command::{Command, Extent3d, RenderResource};
use crate::pending::Pending;
use crate::render_context::RenderContext;
use crate::sync::{guarded, lock, share};
use std::sync::Arc;
use std::sync::Mutex;
use vstd::prelude::*;

verus! {

/// A handle to a shared sequence of pending commands.
///
/// Cloning a handle gives another handle to the same sequence, so a command
/// pushed through one is flushed through any other. The sequence lives as
/// long as one of its handles does.
///
/// Each operation takes the lock, does to the [`Pending`] behind it what the
/// operation of that name does, and gives the lock up. What the sequence
/// held when the lock was won depends on the other handles, so a contract
/// here cannot name it. It says how the operation left the sequence,
/// whatever it found: [`snapshot`](CommandQueue::snapshot) is the sequence
/// as it stood when this handle gave up the lock. The contracts of
/// [`Pending`] say the rest.
pub struct CommandQueue {
    queue: Arc<Mutex<Pending>>,
    left: Ghost<Seq<Command>>,
}

impl CommandQueue {
    /// The storage this handle refers to. Two handles with the same storage
    /// push to, and flush, one sequence of commands.
    pub closed spec fn storage(&self) -> Arc<Mutex<Pending>> {
        self.queue
    }

    /// The pending sequence as it stood when this handle last gave up the
    /// lock; for a handle that has not held it yet, as it stood when the
    /// handle was made.
    ///
    /// Another handle to the same storage may have changed the sequence
    /// since, so this is not what the next operation will find.
    pub closed spec fn snapshot(&self) -> Seq<Command> {
        self.left@
    }

    /// A handle to new storage with nothing pending.
    pub fn new() -> (queue: CommandQueue)
        ensures
            queue.snapshot() == Seq::<Command>::empty(),
    {
        let pending = Pending::new();
        let ghost left = pending@;
        CommandQueue { queue: Arc::new(Mutex::new(pending)), left: Ghost(left) }
    }

    /// Records a copy of `size` bytes from `source_buffer` to
    /// `destination_buffer`, behind everything already pending.
    ///
    /// The command is appended to whatever the storage held when the lock
    /// was won, and the storage is left so.
    pub fn copy_buffer_to_buffer(
        &mut self,
        source_buffer: RenderResource,
        source_offset: u64,
        destination_buffer: RenderResource,
        destination_offset: u64,
        size: u64,
    )
        ensures
            final(self).storage() == old(self).storage(),
            exists|found: Seq<Command>|
                final(self).snapshot() == found.push(
                    Command::CopyBufferToBuffer {
                        source_buffer,
                        source_offset,
                        destination_buffer,
                        destination_offset,
                        size,
                    },
                ),
    {
        let mut guard = lock(&self.queue);
        let pending = guarded(&mut guard);
        let ghost found = pending@;
        pending.copy_buffer_to_buffer(
            source_buffer,
            source_offset,
            destination_buffer,
            destination_offset,
            size,
        );
        self.left = Ghost(pending@);
        assert(self.left@ == found.push(
            Command::CopyBufferToBuffer {
                source_buffer,
                source_offset,
                destination_buffer,
                destination_offset,
                size,
            },
        ));
    }

    /// Records a copy from `source_buffer` into `destination_texture`,
    /// behind everything already pending.
    ///
    /// The command is appended to whatever the storage held when the lock
    /// was won, and the storage is left so.
    pub fn copy_buffer_to_texture(
        &mut self,
        source_buffer: RenderResource,
        source_offset: u64,
        source_bytes_per_row: u32,
        destination_texture: RenderResource,
        destination_origin: [u32; 3],
        destination_mip_level: u32,
        destination_array_layer: u32,
        size: Extent3d,
    )
        ensures
            final(self).storage() == old(self).storage(),
            exists|found: Seq<Command>|
                final(self).snapshot() == found.push(
                    Command::CopyBufferToTexture {
                        source_buffer,
                        source_offset,
                        source_bytes_per_row,
                        destination_texture,
                        destination_origin,
                        destination_mip_level,
                        destination_array_layer,
                        size,
                    },
                ),
    {
        let mut guard = lock(&self.queue);
        let pending = guarded(&mut guard);
        let ghost found = pending@;
        pending.copy_buffer_to_texture(
            source_buffer,
            source_offset,
            source_bytes_per_row,
            destination_texture,
            destination_origin,
            destination_mip_level,
            destination_array_layer,
            size,
        );
        self.left = Ghost(pending@);
        assert(self.left@ == found.push(
            Command::CopyBufferToTexture {
                source_buffer,
                source_offset,
                source_bytes_per_row,
                destination_texture,
                destination_origin,
                destination_mip_level,
                destination_array_layer,
                size,
            },
        ));
    }

    /// Records the release of `buffer`, behind everything already pending.
    ///
    /// The command is appended to whatever the storage held when the lock
    /// was won, and the storage is left so.
    pub fn free_buffer(&mut self, buffer: RenderResource)
        ensures
            final(self).storage() == old(self).storage(),
            exists|found: Seq<Command>|
                final(self).snapshot() == found.push(Command::FreeBuffer(buffer)),
    {
        let mut guard = lock(&self.queue);
        let pending = guarded(&mut guard);
        let ghost found = pending@;
        pending.free_buffer(buffer);
        self.left = Ghost(pending@);
        assert(self.left@ == found.push(Command::FreeBuffer(buffer)));
    }

    /// Moves out whatever the storage held when the lock was won, and leaves
    /// the storage with nothing pending.
    fn take_pending(&mut self) -> (taken: Pending)
        ensures
            final(self).storage() == old(self).storage(),
            final(self).snapshot() == Seq::<Command>::empty(),
    {
        let mut guard = lock(&self.queue);
        let pending = guarded(&mut guard);
        let taken = pending.take();
        self.left = Ghost(pending@);
        taken
    }

    /// Takes out every command pending at the moment the lock is won and
    /// replays them on `render_context`, oldest first.
    ///
    /// The lock is held for the taking only, not while the context works, so
    /// a command pushed meanwhile waits for the next flush.
    pub fn execute<R: RenderContext + ?Sized>(&mut self, render_context: &mut R)
        ensures
            final(self).storage() == old(self).storage(),
            final(self).snapshot() == Seq::<Command>::empty(),
            exists|taken: Seq<Command>|
                final(render_context).issued() == old(render_context).issued() + taken,
    {
        let mut taken = self.take_pending();
        taken.execute(render_context);
    }
}

impl Clone for CommandQueue {
    /// Another handle to the same storage.
    fn clone(&self) -> (other: Self)
        ensures
            other.storage() == self.storage(),
            other.snapshot() == self.snapshot(),
    {
        CommandQueue { queue: share(&self.queue), left: self.left }
    }
}

impl Default for CommandQueue {
    /// A handle to new storage with nothing pending.
    fn default() -> (queue: Self)
        ensures
            queue.snapshot() == Seq::<Command>::empty(),
    {
        CommandQueue::new()
    }
}

} // verus!
