use vstd::prelude::*;

use crate::context::UserData;
use crate::cqe::{Cqe, OperationError};
use crate::sqe::{Sqe, SlotError, SubmissionQueue};
use crate::table::ContextTable;

verus! {

/// The request side of a ring: the leases of the submission queue, the
/// parked contexts, and which of those are still staged (attached to a slot
/// that has not been submitted) rather than in flight.
///
/// A staged context may still be taken back; once `submit` hands the batch
/// over, every parked context is in flight and can only come back through
/// the completion that carries its tag.
#[derive(Debug)]
pub struct RingState<T> {
    queue: SubmissionQueue,
    table: ContextTable<T>,
    staged: Vec<u64>,
}

impl<T> RingState<T> {
    /// The parked contexts, by tag.
    pub closed spec fn contexts(&self) -> Map<u64, UserData<T>> {
        self.table.contexts()
    }

    /// Tags of parked contexts whose slots are not yet submitted.
    pub closed spec fn staged(&self) -> Set<u64> {
        Set::new(|t: u64| self.staged@.contains(t))
    }

    /// Whether `tag` names a context that the kernel now holds.
    pub open spec fn in_flight(&self, tag: u64) -> bool {
        self.contexts().contains_key(tag) && !self.staged().contains(tag)
    }

    pub closed spec fn spec_capacity(&self) -> nat {
        self.queue.spec_capacity()
    }

    /// Slots leased since the last submit.
    pub closed spec fn spec_pending(&self) -> nat {
        self.queue.spec_pending()
    }

    pub closed spec fn slot_count(&self) -> nat {
        self.table.slot_count()
    }

    pub closed spec fn wf(&self) -> bool {
        &&& self.queue.wf()
        &&& self.staged@.no_duplicates()
        &&& forall|i: int|
            0 <= i < self.staged@.len() ==> self.table.contexts().contains_key(
                #[trigger] self.staged@[i],
            )
    }

    /// A ring state with `capacity` submission slots and nothing parked.
    pub fn new(capacity: u32) -> (r: Self)
        ensures
            r.wf(),
            r.contexts() == Map::<u64, UserData<T>>::empty(),
            r.staged() == Set::<u64>::empty(),
            r.spec_capacity() == capacity,
            r.spec_pending() == 0,
            r.slot_count() == 0,
    {
        let r = RingState { queue: SubmissionQueue::new(capacity), table: ContextTable::new(), staged: Vec::new() };
        assert(r.staged() =~= Set::<u64>::empty());
        r
    }

    /// Whether another context can be attached.
    pub fn can_attach(&self) -> (r: bool)
        ensures
            r == (self.slot_count() < usize::MAX),
    {
        self.table.can_attach()
    }

    /// Whether `tag` names a context that the kernel now holds.
    pub fn is_in_flight(&self, tag: u64) -> (r: bool)
        requires
            self.wf(),
        ensures
            r == self.in_flight(tag),
    {
        self.table.is_live(tag) && !self.is_staged(tag)
    }

    /// Whether `tag` names a staged context.
    pub fn is_staged(&self, tag: u64) -> (r: bool)
        ensures
            r == self.staged().contains(tag),
    {
        self.find_staged(tag).is_some()
    }

    fn find_staged(&self, tag: u64) -> (r: Option<usize>)
        ensures
            match r {
                Some(i) => i < self.staged@.len() && self.staged@[i as int] == tag,
                None => !self.staged@.contains(tag),
            },
    {
        let mut i: usize = 0;
        while i < self.staged.len()
            invariant
                i <= self.staged@.len(),
                forall|j: int| 0 <= j < i ==> self.staged@[j] != tag,
            decreases self.staged@.len() - i,
        {
            if self.staged[i] == tag {
                return Some(i);
            }
            i = i + 1;
        }
        None
    }

    /// Leases a submission slot, or reports that the queue is full; nothing
    /// changes on failure.
    pub fn get_sqe(&mut self) -> (r: Result<Sqe, SlotError>)
        requires
            old(self).wf(),
        ensures
            final(self).wf(),
            final(self).contexts() == old(self).contexts(),
            final(self).staged() == old(self).staged(),
            final(self).slot_count() == old(self).slot_count(),
            final(self).spec_capacity() == old(self).spec_capacity(),
            old(self).spec_pending() < old(self).spec_capacity() ==> r is Ok
                && r->Ok_0.spec_index() == old(self).spec_pending()
                && r->Ok_0.spec_user_data() == 0
                && final(self).spec_pending() == old(self).spec_pending() + 1,
            old(self).spec_pending() >= old(self).spec_capacity() ==> r == Err::<Sqe, SlotError>(
                SlotError::QueueFull,
            ) && final(self).spec_pending() == old(self).spec_pending(),
    {
        self.queue.get_sqe()
    }

    /// Parks `user_data` as a staged context and marks `sqe` with its tag.
    pub fn set_user_data(&mut self, sqe: &mut Sqe, user_data: UserData<T>)
        requires
            old(self).wf(),
            old(sqe).spec_user_data() == 0,
            old(self).slot_count() < usize::MAX,
        ensures
            final(self).wf(),
            final(sqe).spec_index() == old(sqe).spec_index(),
            final(sqe).spec_user_data() != 0,
            !old(self).contexts().contains_key(final(sqe).spec_user_data()),
            final(self).contexts() == old(self).contexts().insert(
                final(sqe).spec_user_data(),
                user_data,
            ),
            final(self).staged() == old(self).staged().insert(final(sqe).spec_user_data()),
            final(self).slot_count() <= old(self).slot_count() + 1,
            final(self).spec_capacity() == old(self).spec_capacity(),
            final(self).spec_pending() == old(self).spec_pending(),
    {
        sqe.set_user_data(&mut self.table, user_data);
        let tag = sqe.user_data();
        let ghost before = self.staged@;
        self.staged.push(tag);
        assert forall|t: u64| self.staged@.contains(t) <==> before.contains(t) || t == tag by {
            if before.contains(t) {
                let k = choose|k: int| 0 <= k < before.len() && before[k] == t;
                assert(self.staged@[k] == t);
            }
            if t == tag {
                assert(self.staged@[before.len() as int] == t);
            }
            if self.staged@.contains(t) && t != tag {
                let k = choose|k: int| 0 <= k < self.staged@.len() && self.staged@[k] == t;
                assert(before[k] == t);
            }
        }
        assert(before == old(self).staged@);
        assert forall|t: u64| self.staged().contains(t) == old(self).staged().insert(tag).contains(t) by {
            assert(self.staged().contains(t) == self.staged@.contains(t));
            assert(old(self).staged().contains(t) == before.contains(t));
        }
        assert(self.staged() =~= old(self).staged().insert(tag));
        assert forall|i: int| 0 <= i < self.staged@.len() implies self.table.contexts().contains_key(
            #[trigger] self.staged@[i],
        ) by {
            if i < before.len() {
                assert(before[i] == self.staged@[i]);
            }
        }
        assert(!before.contains(tag));
    }

    /// Takes back the context attached to `sqe` while it is still staged;
    /// `None`, with nothing changed, when `sqe` has no staged context (none
    /// attached, or already submitted). `sqe` is left without a context.
    pub fn detach_user_data(&mut self, sqe: &mut Sqe) -> (r: Option<UserData<T>>)
        requires
            old(self).wf(),
        ensures
            final(self).wf(),
            final(sqe).spec_index() == old(sqe).spec_index(),
            final(sqe).spec_user_data() == 0,
            old(self).staged().contains(old(sqe).spec_user_data()) ==> r == Some(
                old(self).contexts()[old(sqe).spec_user_data()],
            ) && final(self).contexts() == old(self).contexts().remove(old(sqe).spec_user_data())
                && final(self).staged() == old(self).staged().remove(old(sqe).spec_user_data()),
            !old(self).staged().contains(old(sqe).spec_user_data()) ==> r is None
                && final(self).contexts() == old(self).contexts() && final(self).staged() == old(
                self,
            ).staged(),
            final(self).slot_count() == old(self).slot_count(),
            final(self).spec_capacity() == old(self).spec_capacity(),
            final(self).spec_pending() == old(self).spec_pending(),
    {
        let tag = sqe.user_data();
        match self.find_staged(tag) {
            None => {
                sqe.clear_user_data();
                None
            },
            Some(i) => {
                let ghost before = self.staged@;
                self.staged.swap_remove(i);
                let ghost after = self.staged@;
                assert forall|t: u64| after.contains(t) <==> before.contains(t) && t != tag by {
                    if after.contains(t) {
                        let k = choose|k: int| 0 <= k < after.len() && after[k] == t;
                        if k == i {
                            assert(before[before.len() - 1] == t);
                        } else {
                            assert(before[k] == t);
                        }
                    }
                    if before.contains(t) && t != tag {
                        let k = choose|k: int| 0 <= k < before.len() && before[k] == t;
                        if k == before.len() - 1 {
                            assert(after[i as int] == t);
                        } else {
                            assert(after[k] == t);
                        }
                    }
                }
                assert(self.staged() =~= old(self).staged().remove(tag));
                assert forall|a: int, b: int|
                    0 <= a < after.len() && 0 <= b < after.len() && a != b implies after[a]
                    != after[b] by {
                    let a2 = if a == i { before.len() - 1 } else { a };
                    let b2 = if b == i { before.len() - 1 } else { b };
                    assert(before[a2] == after[a]);
                    assert(before[b2] == after[b]);
                }
                let r = sqe.detach_user_data(&mut self.table);
                assert forall|k: int| 0 <= k < after.len() implies self.table.contexts().contains_key(
                    #[trigger] after[k],
                ) by {
                    assert(after.contains(after[k]));
                }
                r
            },
        }
    }

    /// Hands every leased slot over as one batch and returns how many there
    /// were; every staged context is then in flight.
    pub fn submit(&mut self) -> (r: u32)
        requires
            old(self).wf(),
        ensures
            final(self).wf(),
            r == old(self).spec_pending(),
            final(self).spec_pending() == 0,
            final(self).spec_capacity() == old(self).spec_capacity(),
            final(self).contexts() == old(self).contexts(),
            final(self).staged() == Set::<u64>::empty(),
            final(self).slot_count() == old(self).slot_count(),
    {
        self.staged.clear();
        assert(self.staged() =~= Set::<u64>::empty());
        self.queue.submit()
    }

    /// Redeems the context of an in-flight request from its completion and
    /// interprets the result code, as [`Cqe::get_data`] does; a completion
    /// without a tag yields `Ok(None)`.
    pub fn get_data(&mut self, cqe: &Cqe) -> (r: Result<Option<UserData<T>>, OperationError>)
        requires
            old(self).wf(),
            cqe.spec_user_data() == 0 || old(self).in_flight(cqe.spec_user_data()),
        ensures
            final(self).wf(),
            final(self).staged() == old(self).staged(),
            final(self).slot_count() == old(self).slot_count(),
            final(self).spec_capacity() == old(self).spec_capacity(),
            final(self).spec_pending() == old(self).spec_pending(),
            cqe.spec_user_data() == 0 ==> r == Ok::<Option<UserData<T>>, OperationError>(None)
                && final(self).contexts() == old(self).contexts(),
            cqe.spec_user_data() != 0 ==> final(self).contexts() == old(self).contexts().remove(
                cqe.spec_user_data(),
            ),
            cqe.spec_user_data() != 0 && cqe.spec_result() < 0 ==> r is Err
                && r->Err_0.spec_op() == old(self).contexts()[cqe.spec_user_data()].spec_op()
                && r->Err_0.spec_errno() == -cqe.spec_result(),
            cqe.spec_user_data() != 0 && cqe.spec_result() >= 0 ==> r == Ok::<
                Option<UserData<T>>,
                OperationError,
            >(Some(old(self).contexts()[cqe.spec_user_data()])),
    {
        let r = cqe.get_data(&mut self.table);
        assert forall|k: int| 0 <= k < self.staged@.len() implies self.table.contexts().contains_key(
            #[trigger] self.staged@[k],
        ) by {
            assert(old(self).staged().contains(self.staged@[k]));
        }
        r
    }
}

} // verus!
