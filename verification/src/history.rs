//! A queue's life as a sequence of events, and the laws that hold of it.
//!
//! The lock admits one operation at a time, so whatever the threads do, the
//! storage sees some sequence of pushes and flushes. [`step`] says what one
//! of them does, in the words of the contracts of
//! [`Pending`](crate::pending::Pending); the proof functions say what holds
//! of every such sequence.
use crate::command::Command;
use vstd::prelude::*;

verus! {

/// One operation on a queue's storage.
pub enum Event {
    /// One of the recording operations, with the command it recorded.
    Push(Command),
    /// A flush: every pending command is taken out and dispatched.
    Flush,
}

/// The commands pending in a queue's storage, and the history of the render
/// context that the queue is flushed to.
pub struct State {
    pub pending: Seq<Command>,
    pub issued: Seq<Command>,
}

/// The state after one event: a push does what
/// [`Pending::push`](crate::pending::Pending::push) ensures of the pending
/// sequence, a flush what
/// [`Pending::execute`](crate::pending::Pending::execute) ensures of the
/// sequence and of the context's history.
pub open spec fn step(state: State, event: Event) -> State {
    match event {
        Event::Push(command) => State {
            pending: state.pending.push(command),
            issued: state.issued,
        },
        Event::Flush => State {
            pending: Seq::empty(),
            issued: state.issued + state.pending,
        },
    }
}

/// The state after `events`, first to last.
pub open spec fn run(state: State, events: Seq<Event>) -> State
    decreases events.len(),
{
    if events.len() == 0 {
        state
    } else {
        step(run(state, events.drop_last()), events.last())
    }
}

/// The commands that `events` pushed, in the order pushed.
pub open spec fn pushed(events: Seq<Event>) -> Seq<Command>
    decreases events.len(),
{
    if events.len() == 0 {
        Seq::empty()
    } else {
        match events.last() {
            Event::Push(command) => pushed(events.drop_last()).push(command),
            Event::Flush => pushed(events.drop_last()),
        }
    }
}

/// One push for each of `commands`, in order.
pub open spec fn pushes(commands: Seq<Command>) -> Seq<Event> {
    Seq::new(commands.len(), |i: int| Event::Push(commands[i]))
}

/// Every command is dispatched at most once and none is dropped: after any
/// events, the context's history followed by what is still pending is what
/// was there at the start followed by the commands pushed since, each once
/// and in the order pushed.
pub proof fn lemma_nothing_lost_or_repeated(state: State, events: Seq<Event>)
    ensures
        run(state, events).issued + run(state, events).pending == state.issued + state.pending
            + pushed(events),
    decreases events.len(),
{
    if events.len() == 0 {
        assert(state.issued + state.pending + Seq::<Command>::empty() =~= state.issued
            + state.pending);
    } else {
        let earlier = run(state, events.drop_last());
        lemma_nothing_lost_or_repeated(state, events.drop_last());
        match events.last() {
            Event::Push(command) => {
                assert(earlier.issued + earlier.pending.push(command) =~= (earlier.issued
                    + earlier.pending).push(command));
                assert(state.issued + state.pending + pushed(events.drop_last()).push(command)
                    =~= (state.issued + state.pending + pushed(events.drop_last())).push(
                    command,
                ));
            },
            Event::Flush => {
                assert(earlier.issued + earlier.pending + Seq::<Command>::empty() =~= earlier.issued
                    + earlier.pending);
            },
        }
    }
}

/// A flush is complete: whatever came before it, in whatever order, nothing
/// is pending after it, and the context's history holds everything that was
/// pending at the start or pushed since, in the order pushed.
pub proof fn lemma_flush_leaves_nothing(state: State, events: Seq<Event>)
    ensures
        run(state, events.push(Event::Flush)).pending == Seq::<Command>::empty(),
        run(state, events.push(Event::Flush)).issued == state.issued + state.pending + pushed(
            events,
        ),
{
    lemma_nothing_lost_or_repeated(state, events);
    assert(events.push(Event::Flush).drop_last() =~= events);
}

/// The pushes of `commands` push exactly `commands`.
pub proof fn lemma_pushes_push_each(commands: Seq<Command>)
    ensures
        pushed(pushes(commands)) == commands,
    decreases commands.len(),
{
    if commands.len() == 0 {
        assert(pushed(pushes(commands)) =~= commands);
    } else {
        lemma_pushes_push_each(commands.drop_last());
        assert(pushes(commands).drop_last() =~= pushes(commands.drop_last()));
        assert(commands.drop_last().push(commands.last()) =~= commands);
    }
}

/// Order is preserved: after the pushes of `commands` and one flush, the
/// context's history has grown by what was pending before and then by
/// `commands`, in the order pushed, and nothing is pending.
pub proof fn lemma_flush_keeps_push_order(state: State, commands: Seq<Command>)
    ensures
        run(state, pushes(commands).push(Event::Flush)) == (State {
            pending: Seq::empty(),
            issued: state.issued + state.pending + commands,
        }),
{
    lemma_flush_leaves_nothing(state, pushes(commands));
    lemma_pushes_push_each(commands);
}

/// A flush with nothing pending changes nothing.
pub proof fn lemma_flush_of_nothing(state: State)
    requires
        state.pending == Seq::<Command>::empty(),
    ensures
        step(state, Event::Flush) == state,
{
    assert(state.issued + state.pending =~= state.issued);
}

} // verus!
