//! Single-slot, overwrite-on-write message cell used for all cross-task
//! communication. No queueing, no backpressure: the newest value wins.

use vstd::prelude::*;

verus! {

/// What publishing does to a slot: the new value replaces whatever was
/// pending, read or not.
pub open spec fn spec_publish<T>(slot: Option<T>, v: T) -> Option<T> {
    Some(v)
}

/// What taking does to a slot: the pending value (if any) is handed out
/// and the slot is cleared.
pub open spec fn spec_take<T>(slot: Option<T>) -> (Option<T>, Option<T>) {
    (slot, None::<T>)
}

/// A single-slot mailbox. `publish` never blocks and always succeeds,
/// overwriting any unconsumed value; the consumer drains the slot with
/// `take_next`. One logical consumer per mailbox is assumed.
pub struct Mailbox<T> {
    slot: Option<T>,
}

impl<T> Mailbox<T> {
    /// The value pending in the slot, if any.
    pub closed spec fn pending(&self) -> Option<T> {
        self.slot
    }

    /// A fresh mailbox holds nothing.
    pub fn new() -> (m: Mailbox<T>)
        ensures
            m.pending() is None,
    {
        Mailbox { slot: None }
    }

    /// Publish a value, replacing any unconsumed one. Never blocks.
    pub fn publish(&mut self, v: T)
        ensures
            final(self).pending() == spec_publish(old(self).pending(), v),
    {
        self.slot = Some(v);
    }

    /// Hand out the pending value (if any) and clear the slot. The
    /// consumer task loops on this, suspending while it returns `None`.
    pub fn take_next(&mut self) -> (r: Option<T>)
        ensures
            r == spec_take(old(self).pending()).0,
            final(self).pending() == spec_take(old(self).pending()).1,
    {
        self.slot.take()
    }
}

/// Overwrite law: publishing `v1` then `v2` before any read leaves exactly
/// `v2` for the next take, whatever was pending before.
pub proof fn lemma_publish_overwrites<T>(slot: Option<T>, v1: T, v2: T)
    ensures
        spec_take(spec_publish(spec_publish(slot, v1), v2)).0 == Some(v2),
        spec_take(spec_publish(spec_publish(slot, v1), v2)).1 == None::<T>,
{
}

/// A slot after a whole sequence of publishes with no read in between.
pub open spec fn spec_publish_all<T>(slot: Option<T>, vs: Seq<T>) -> Option<T>
    decreases vs.len(),
{
    if vs.len() == 0 {
        slot
    } else {
        spec_publish(spec_publish_all(slot, vs.drop_last()), vs.last())
    }
}

/// However many publishes go unread, the consumer's next take sees only
/// the most recent one.
pub proof fn lemma_last_publish_wins<T>(slot: Option<T>, vs: Seq<T>)
    requires
        vs.len() > 0,
    ensures
        spec_take(spec_publish_all(slot, vs)).0 == Some(vs.last()),
{
}

} // verus!
