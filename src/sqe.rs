use vstd::prelude::*;

use crate::context::UserData;
use crate::table::ContextTable;

verus! {

/// Why no submission slot could be had.
#[derive(Debug, Clone, Copy, PartialEq, Eq, Structural)]
pub enum SlotError {
    /// Every slot of the submission queue is leased and not yet submitted.
    QueueFull,
}

/// The lease bookkeeping of a fixed-capacity submission queue: how many
/// slots have been handed out since the last submit.
#[derive(Debug)]
pub struct SubmissionQueue {
    capacity: u32,
    pending: u32,
}

/// A leased submission slot: its position in the current batch and the tag
/// of the context attached to it (0 while none is).
#[derive(Debug)]
pub struct Sqe {
    index: u32,
    user_data: u64,
}

impl SubmissionQueue {
    pub closed spec fn spec_capacity(&self) -> nat {
        self.capacity as nat
    }

    /// Slots leased since the last submit.
    pub closed spec fn spec_pending(&self) -> nat {
        self.pending as nat
    }

    pub closed spec fn wf(&self) -> bool {
        self.pending <= self.capacity
    }

    /// A queue of `capacity` slots, none leased.
    pub fn new(capacity: u32) -> (r: Self)
        ensures
            r.wf(),
            r.spec_capacity() == capacity,
            r.spec_pending() == 0,
    {
        SubmissionQueue { capacity, pending: 0 }
    }

    pub fn capacity(&self) -> (r: u32)
        ensures
            r == self.spec_capacity(),
    {
        self.capacity
    }

    pub fn pending(&self) -> (r: u32)
        ensures
            r == self.spec_pending(),
    {
        self.pending
    }

    /// Leases the next free slot, or reports that the queue is full. This is
    /// a local check: it never blocks, and on failure nothing changes.
    pub fn get_sqe(&mut self) -> (r: Result<Sqe, SlotError>)
        requires
            old(self).wf(),
        ensures
            final(self).wf(),
            final(self).spec_capacity() == old(self).spec_capacity(),
            old(self).spec_pending() < old(self).spec_capacity() ==> r is Ok
                && r->Ok_0.spec_index() == old(self).spec_pending()
                && r->Ok_0.spec_user_data() == 0
                && final(self).spec_pending() == old(self).spec_pending() + 1,
            old(self).spec_pending() >= old(self).spec_capacity() ==> r == Err::<Sqe, SlotError>(
                SlotError::QueueFull,
            ) && final(self).spec_pending() == old(self).spec_pending(),
    {
        if self.pending < self.capacity {
            let index = self.pending;
            self.pending = self.pending + 1;
            Ok(Sqe { index, user_data: 0 })
        } else {
            Err(SlotError::QueueFull)
        }
    }

    /// Hands the leased slots over as one batch and returns how many there
    /// were; every slot is free again afterwards.
    pub fn submit(&mut self) -> (r: u32)
        requires
            old(self).wf(),
        ensures
            final(self).wf(),
            r == old(self).spec_pending(),
            final(self).spec_pending() == 0,
            final(self).spec_capacity() == old(self).spec_capacity(),
    {
        let n = self.pending;
        self.pending = 0;
        n
    }
}

impl Sqe {
    pub closed spec fn spec_index(&self) -> nat {
        self.index as nat
    }

    pub closed spec fn spec_user_data(&self) -> u64 {
        self.user_data
    }

    /// The slot's position in the current batch.
    pub fn index(&self) -> (r: u32)
        ensures
            r == self.spec_index(),
    {
        self.index
    }

    /// The tag to hand to the kernel with this slot (0 for none).
    pub fn user_data(&self) -> (r: u64)
        ensures
            r == self.spec_user_data(),
    {
        self.user_data
    }

    /// Parks `user_data` in `table` and marks this slot with its tag, so the
    /// completion of the slot's operation can redeem it.
    pub fn set_user_data<T>(&mut self, table: &mut ContextTable<T>, user_data: UserData<T>)
        requires
            old(self).spec_user_data() == 0,
            old(table).has_room(),
        ensures
            final(self).spec_index() == old(self).spec_index(),
            final(self).spec_user_data() != 0,
            !old(table).contexts().contains_key(final(self).spec_user_data()),
            final(table).contexts() == old(table).contexts().insert(
                final(self).spec_user_data(),
                user_data,
            ),
            final(table).slot_count() <= old(table).slot_count() + 1,
    {
        self.user_data = table.attach(user_data);
    }

    /// Leaves the slot without a context, without touching any table.
    pub(crate) fn clear_user_data(&mut self)
        ensures
            final(self).spec_index() == old(self).spec_index(),
            final(self).spec_user_data() == 0,
    {
        self.user_data = 0;
    }

    /// Takes the attached context back before submission; the slot is then
    /// left without one.
    pub(crate) fn detach_user_data<T>(&mut self, table: &mut ContextTable<T>) -> (r: Option<UserData<T>>)
        ensures
            final(self).spec_index() == old(self).spec_index(),
            final(self).spec_user_data() == 0,
            old(table).contexts().contains_key(old(self).spec_user_data()) ==> r == Some(
                old(table).contexts()[old(self).spec_user_data()],
            ),
            !old(table).contexts().contains_key(old(self).spec_user_data()) ==> r is None,
            final(table).contexts() == old(table).contexts().remove(old(self).spec_user_data()),
            final(table).slot_count() == old(table).slot_count(),
    {
        let tag = self.user_data;
        self.user_data = 0;
        table.recover(tag)
    }
}

} // verus!
