//! Deferred recording of GPU transfer commands.
//!
//! Producers record copy and free commands on a [`CommandQueue`], or on any
//! clone of it; one consumer later drains the queue and replays the commands,
//! oldest first, on a [`RenderContext`].
//!
//! The storage behind a queue is shared, so what it holds at any moment is
//! known only to whoever holds its lock. A handle's contract says how its
//! operation left the storage, whatever it found there. The exact contracts
//! stand on [`Pending`], the sequence behind the lock, and the laws of
//! [`history`] say what follows from them for a whole run of pushes and
//! flushes.
pub mod command;
pub mod history;
pub mod pending;
pub mod queue;
pub mod render_context;
mod sync;

pub use command::{Command, Extent3d, RenderResource};
pub use pending::Pending;
pub use queue::CommandQueue;
pub use render_context::RenderContext;
