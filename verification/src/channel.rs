//! The command channel: the FIFO hand-off from the connection ingestors to
//! the simulation tick.
//!
//! Producers only append and never fail; the single consumer takes from the
//! front without blocking. The queue view makes the ordering contract exact:
//! a drain hands back precisely the queued sequence, so whatever order
//! producers interleaved in, each producer's own commands come out in the
//! order that producer sent them.

use vstd::prelude::*;

use crate::command::Command;

verus! {

/// FIFO queue of pending commands from all connections to the simulation.
pub struct CommandChannel {
    queue: Vec<Command>,
}

impl View for CommandChannel {
    type V = Seq<Command>;

    closed spec fn view(&self) -> Seq<Command> {
        self.queue@
    }
}

impl CommandChannel {
    /// An empty channel.
    pub fn new() -> (c: CommandChannel)
        ensures
            c@ == Seq::<Command>::empty(),
    {
        CommandChannel { queue: Vec::new() }
    }

    /// How many commands are pending.
    pub fn len(&self) -> (n: usize)
        ensures
            n == self@.len(),
    {
        self.queue.len()
    }

    /// Appends one command. Never blocks the producer, never fails, never
    /// drops a command.
    pub fn send(&mut self, c: Command)
        ensures
            final(self)@ == old(self)@.push(c),
    {
        self.queue.push(c);
    }

    /// Non-blocking receive: the oldest pending command, or `None` when the
    /// queue is empty. Never blocks the simulation tick.
    pub fn try_receive(&mut self) -> (r: Option<Command>)
        ensures
            old(self)@.len() == 0 ==> r is None && final(self)@ == old(self)@,
            old(self)@.len() > 0 ==> r == Some(old(self)@[0]) && final(self)@ == old(self)@.subrange(
                1,
                old(self)@.len() as int,
            ),
    {
        if self.queue.len() == 0 {
            None
        } else {
            Some(self.queue.remove(0))
        }
    }

    /// Empties the channel, returning every pending command in arrival
    /// order: the drain policy itself never discards or reorders a command.
    pub fn drain(&mut self) -> (cmds: Vec<Command>)
        ensures
            cmds@ == old(self)@,
            final(self)@ == Seq::<Command>::empty(),
    {
        let ghost orig: Seq<Command> = self.queue@;
        let mut out: Vec<Command> = Vec::new();
        while self.queue.len() > 0
            invariant
                out@ + self.queue@ == orig,
            decreases self.queue@.len(),
        {
            let c = self.queue.remove(0);
            out.push(c);
        }
        proof {
            assert(out@ =~= orig);
            assert(self.queue@ =~= Seq::<Command>::empty());
        }
        out
    }
}

/// Law: per-producer ordering is preserved. If one producer sends `c1` and
/// later `c2`, then whatever other producers put before, between, or after
/// them, the queued sequence — which [`CommandChannel::drain`] returns
/// unchanged — holds that occurrence of `c1` at a position strictly before
/// that occurrence of `c2`.
pub proof fn lemma_per_producer_order(
    before: Seq<Command>,
    between: Seq<Command>,
    c1: Command,
    c2: Command,
)
    ensures
        ({
            let q = before.push(c1) + between.push(c2);
            &&& q[before.len() as int] == c1
            &&& q[before.len() + between.len() + 1int] == c2
            &&& (before.len() as int) < before.len() + between.len() + 1int
        }),
{
}

} // verus!
