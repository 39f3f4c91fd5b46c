//! The deferred command queue: host mutations proposed during script calls,
//! applied strictly after the tick's script work.

use vstd::prelude::*;

verus! {

/// A per-consumer-type FIFO buffer of host mutations, filled from inside
/// import functions while direct structural mutation of the host world is off
/// limits.  The host flushes it once per tick, after every script-driving
/// system of that consumer type has finished.
pub struct ScriptCommandQueue<C> {
    commands: Vec<C>,
}

impl<C> View for ScriptCommandQueue<C> {
    type V = Seq<C>;

    closed spec fn view(&self) -> Seq<C> {
        self.commands@
    }
}

impl<C> ScriptCommandQueue<C> {
    /// An empty queue.
    pub fn new() -> (r: ScriptCommandQueue<C>)
        ensures
            r@ == Seq::<C>::empty(),
    {
        ScriptCommandQueue { commands: Vec::new() }
    }

    /// How many commands wait to be applied.
    pub fn len(&self) -> (r: usize)
        ensures
            r == self@.len(),
    {
        self.commands.len()
    }

    /// Proposes one host mutation: queued behind every earlier proposal and
    /// applied by nothing until a flush hands it over.
    pub fn enqueue(&mut self, command: C)
        ensures
            final(self)@ == old(self)@.push(command),
    {
        self.commands.push(command);
    }

    /// Hands over every queued command, in exactly the order they were
    /// proposed, and leaves the queue empty: each command is handed over
    /// exactly once, and only at a flush.
    pub fn flush(&mut self) -> (r: Vec<C>)
        ensures
            r@ == old(self)@,
            final(self)@ == Seq::<C>::empty(),
    {
        let mut out: Vec<C> = Vec::new();
        core::mem::swap(&mut out, &mut self.commands);
        out
    }
}

impl<C> Default for ScriptCommandQueue<C> {
    /// An empty queue.
    fn default() -> (r: Self)
        ensures
            r@ == Seq::<C>::empty(),
    {
        ScriptCommandQueue { commands: Vec::new() }
    }
}

/// Proposals only accumulate: enqueueing keeps every queued command at its
/// place and adds the new one at the tail, so a later flush hands them over
/// in proposal order.
pub proof fn lemma_enqueue_fifo<C>(q: Seq<C>, c: C)
    ensures
        q.push(c).len() == q.len() + 1,
        q.push(c)[q.len() as int] == c,
        forall|i: int| 0 <= i < q.len() ==> q.push(c)[i] == q[i],
{
}

} // verus!
