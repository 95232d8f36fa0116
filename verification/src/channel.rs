//! The Command Channel: a bounded first-in first-out queue carrying
//! user-submitted command strings into the active connection loop.
//!
//! The queue itself never suspends: `submit` reports [`SubmitOutcome::Full`]
//! when no slot is free, and the caller decides how to wait for one. The
//! consumer polls with `try_take`, which likewise never blocks.

use vstd::prelude::*;

verus! {

/// Capacity of the command channel: at most this many commands are pending
/// at any time.
pub const CHANNEL_CAPACITY: usize = 100;

/// What became of a submitted command.
pub enum SubmitOutcome {
    /// The command was appended to the queue; the caller is done.
    Enqueued,
    /// The queue already held [`CHANNEL_CAPACITY`] commands; nothing was
    /// enqueued, and the command is handed back so the caller can wait for
    /// a slot to free and retry.
    Full(String),
}

/// The bounded queue of pending commands, oldest first.
pub struct CommandQueue {
    commands: Vec<String>,
}

impl View for CommandQueue {
    type V = Seq<Seq<char>>;

    closed spec fn view(&self) -> Seq<Seq<char>> {
        self.commands.deep_view()
    }
}

impl CommandQueue {
    /// The queue never holds more than [`CHANNEL_CAPACITY`] commands.
    pub open spec fn wf(&self) -> bool {
        self@.len() <= CHANNEL_CAPACITY
    }

    /// An empty queue.
    pub fn new() -> (queue: CommandQueue)
        ensures
            queue.wf(),
            queue@ == Seq::<Seq<char>>::empty(),
    {
        CommandQueue { commands: Vec::new() }
    }

    /// How many commands are pending.
    pub fn len(&self) -> (n: usize)
        ensures
            n == self@.len(),
    {
        self.commands.len()
    }

    /// Appends `command` to the queue when a slot is free, and reports
    /// `Full` — leaving the queue unchanged — exactly when the queue is at
    /// capacity. Never suspends the caller.
    pub fn submit(&mut self, command: String) -> (outcome: SubmitOutcome)
        requires
            old(self).wf(),
        ensures
            final(self).wf(),
            outcome is Enqueued <==> old(self)@.len() < CHANNEL_CAPACITY,
            outcome is Enqueued ==> final(self)@ == old(self)@.push(command@),
            outcome matches SubmitOutcome::Full(rejected) ==> (final(self)@ == old(self)@
                && rejected@ == command@),
    {
        if self.commands.len() < CHANNEL_CAPACITY {
            let ghost before = self@;
            let ghost submitted = command@;
            self.commands.push(command);
            proof {
                assert(self@ =~= before.push(submitted));
            }
            SubmitOutcome::Enqueued
        } else {
            SubmitOutcome::Full(command)
        }
    }

    /// Removes and returns the oldest pending command, or `None` — without
    /// blocking — when the queue is empty.
    pub fn try_take(&mut self) -> (taken: Option<String>)
        requires
            old(self).wf(),
        ensures
            final(self).wf(),
            old(self)@.len() == 0 ==> taken is None && final(self)@ == old(self)@,
            old(self)@.len() > 0 ==> (taken matches Some(command)
                && command@ == old(self)@[0] && final(self)@ == old(self)@.drop_first()),
    {
        if self.commands.len() == 0 {
            None
        } else {
            let ghost before = self@;
            let command = self.commands.remove(0);
            proof {
                assert(self@ =~= before.drop_first());
            }
            Some(command)
        }
    }
}

} // verus!
