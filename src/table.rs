use vstd::prelude::*;

use crate::context::UserData;

verus! {

/// An arena that holds the contexts of in-flight requests.
///
/// Parking a context yields a nonzero tag; the tag is what travels through the
/// kernel, and redeeming it hands the context back and frees the entry, so a
/// context is given back at most once. Tag 0 is never handed out: it stands for
/// "no context".
#[derive(Debug)]
pub struct ContextTable<T> {
    slots: Vec<Option<UserData<T>>>,
}

impl<T> ContextTable<T> {
    /// The parked contexts, by tag.
    pub closed spec fn contexts(&self) -> Map<u64, UserData<T>> {
        Map::new(
            |t: u64| 1 <= t <= self.slots@.len() && self.slots@[t - 1] is Some,
            |t: u64| self.slots@[t - 1]->Some_0,
        )
    }

    /// How many entries the arena has grown to, free ones included.
    pub closed spec fn slot_count(&self) -> nat {
        self.slots@.len()
    }

    /// Whether another context can be parked without the arena outgrowing
    /// what an index can address.
    pub open spec fn has_room(&self) -> bool {
        self.slot_count() < usize::MAX
    }

    /// An empty table.
    pub fn new() -> (r: Self)
        ensures
            r.contexts() == Map::<u64, UserData<T>>::empty(),
            r.slot_count() == 0,
    {
        let r = ContextTable { slots: Vec::new() };
        assert(r.contexts() =~= Map::<u64, UserData<T>>::empty());
        r
    }

    /// Whether [`Self::attach`] may be called.
    pub fn can_attach(&self) -> (r: bool)
        ensures
            r == self.has_room(),
    {
        self.slots.len() < usize::MAX
    }

    /// Whether `tag` names a parked context.
    pub fn is_live(&self, tag: u64) -> (r: bool)
        ensures
            r == self.contexts().contains_key(tag),
    {
        tag != 0 && tag - 1 < self.slots.len() as u64 && self.slots[(tag - 1) as usize].is_some()
    }

    /// Parks `ud` and returns its tag: a nonzero tag that no parked context has.
    pub fn attach(&mut self, ud: UserData<T>) -> (tag: u64)
        requires
            old(self).has_room(),
        ensures
            tag != 0,
            !old(self).contexts().contains_key(tag),
            final(self).contexts() == old(self).contexts().insert(tag, ud),
            final(self).slot_count() <= old(self).slot_count() + 1,
    {
        let n = self.slots.len();
        let mut i: usize = 0;
        while i < n
            invariant
                n == self.slots@.len(),
                i <= n,
                forall|j: int| 0 <= j < i ==> self.slots@[j] is Some,
            ensures
                i <= n,
                i < n ==> self.slots@[i as int] is None,
                i == n ==> forall|j: int| 0 <= j < n ==> self.slots@[j] is Some,
            decreases n - i,
        {
            if self.slots[i].is_none() {
                break;
            }
            i = i + 1;
        }
        let ghost before = self.contexts();
        let tag = (i as u64) + 1;
        if i < n {
            self.slots.set(i, Some(ud));
        } else {
            self.slots.push(Some(ud));
        }
        assert(self.contexts() =~= before.insert(tag, ud));
        tag
    }

    /// Hands back the context parked under `tag` and frees its entry; `None`
    /// if no context is parked there (tag 0 included).
    pub fn recover(&mut self, tag: u64) -> (r: Option<UserData<T>>)
        ensures
            old(self).contexts().contains_key(tag) ==> r == Some(old(self).contexts()[tag]),
            !old(self).contexts().contains_key(tag) ==> r is None,
            final(self).contexts() == old(self).contexts().remove(tag),
            final(self).slot_count() == old(self).slot_count(),
    {
        if tag == 0 || tag - 1 >= self.slots.len() as u64 {
            assert(self.contexts() =~= self.contexts().remove(tag));
            return None;
        }
        let ghost before = self.contexts();
        let i = (tag - 1) as usize;
        let mut taken: Option<UserData<T>> = None;
        std::mem::swap(&mut self.slots[i], &mut taken);
        assert(self.contexts() =~= before.remove(tag));
        taken
    }
}

/// Redeeming a tag right after a context was parked under it gives back
/// exactly that context and leaves the table as it was before; the tag is then
/// spent, so a second redemption of it finds nothing.
pub proof fn lemma_recover_after_attach<T>(
    before: ContextTable<T>,
    parked: ContextTable<T>,
    after: ContextTable<T>,
    tag: u64,
    ud: UserData<T>,
)
    requires
        !before.contexts().contains_key(tag),
        parked.contexts() == before.contexts().insert(tag, ud),
        after.contexts() == parked.contexts().remove(tag),
    ensures
        parked.contexts().contains_key(tag),
        parked.contexts()[tag] == ud,
        after.contexts() == before.contexts(),
        !after.contexts().contains_key(tag),
{
    assert(after.contexts() =~= before.contexts());
}

/// Parking a series of contexts, each under a tag that no parked context
/// had, gives pairwise distinct tags, and each tag then holds its own context.
pub proof fn lemma_attach_series<T>(
    tables: Seq<ContextTable<T>>,
    tags: Seq<u64>,
    uds: Seq<UserData<T>>,
)
    requires
        tables.len() == tags.len() + 1,
        uds.len() == tags.len(),
        forall|i: int|
            0 <= i < tags.len() ==> !(#[trigger] tables[i]).contexts().contains_key(tags[i])
                && tables[i + 1].contexts() == tables[i].contexts().insert(tags[i], uds[i]),
    ensures
        forall|i: int, j: int| 0 <= i < j < tags.len() ==> tags[i] != tags[j],
        forall|i: int|
            0 <= i < tags.len() ==> tables.last().contexts().contains_key(#[trigger] tags[i])
                && tables.last().contexts()[tags[i]] == uds[i],
    decreases tags.len(),
{
    if tags.len() > 0 {
        let n = tags.len() - 1;
        lemma_attach_series(tables.drop_last(), tags.drop_last(), uds.drop_last());
        assert(!tables[n].contexts().contains_key(tags[n]));
        assert(tables.drop_last().last() == tables[n]);
        assert forall|i: int| 0 <= i < n implies tags[i] != tags[n] by {
            assert(tags.drop_last()[i] == tags[i]);
            assert(tables[n].contexts().contains_key(tags.drop_last()[i]));
        }
        assert forall|i: int, j: int| 0 <= i < j < tags.len() implies tags[i] != tags[j] by {
            if j < n {
                assert(tags.drop_last()[i] == tags[i]);
                assert(tags.drop_last()[j] == tags[j]);
            }
        }
        assert forall|i: int|
            0 <= i < tags.len() implies tables.last().contexts().contains_key(#[trigger] tags[i])
            && tables.last().contexts()[tags[i]] == uds[i] by {
            if i < n {
                assert(tags.drop_last()[i] == tags[i]);
                assert(uds.drop_last()[i] == uds[i]);
            }
        }
    }
}

/// Redemptions of distinct tags do not interfere: redeeming one leaves every
/// other parked context as it was, and redeeming two gives the same table in
/// either order.
pub proof fn lemma_recover_independent<T>(table: ContextTable<T>, a: u64, b: u64)
    requires
        a != b,
    ensures
        table.contexts().remove(a).contains_key(b) == table.contexts().contains_key(b),
        table.contexts().contains_key(b) ==> table.contexts().remove(a)[b] == table.contexts()[b],
        table.contexts().remove(a).remove(b) == table.contexts().remove(b).remove(a),
{
    assert(table.contexts().remove(a).remove(b) =~= table.contexts().remove(b).remove(a));
}

/// Redeeming distinct parked tags one after another, in any order, gives
/// every redemption the context that was parked under its tag before the
/// first of them.
pub proof fn lemma_recover_series<T>(tables: Seq<ContextTable<T>>, order: Seq<u64>)
    requires
        tables.len() == order.len() + 1,
        order.no_duplicates(),
        forall|i: int| 0 <= i < order.len() ==> tables[0].contexts().contains_key(#[trigger] order[i]),
        forall|i: int|
            0 <= i < order.len() ==> (#[trigger] tables[i + 1]).contexts() == tables[i].contexts().remove(
                order[i],
            ),
    ensures
        forall|i: int|
            0 <= i < order.len() ==> tables[i].contexts().contains_key(#[trigger] order[i])
                && tables[i].contexts()[order[i]] == tables[0].contexts()[order[i]],
{
    assert forall|i: int| 0 <= i < order.len() implies tables[i].contexts().contains_key(
        #[trigger] order[i],
    ) && tables[i].contexts()[order[i]] == tables[0].contexts()[order[i]] by {
        lemma_recover_prefix(tables, order, i, order[i]);
    }
}

proof fn lemma_recover_prefix<T>(tables: Seq<ContextTable<T>>, order: Seq<u64>, n: int, t: u64)
    requires
        tables.len() == order.len() + 1,
        0 <= n <= order.len(),
        forall|i: int|
            0 <= i < order.len() ==> (#[trigger] tables[i + 1]).contexts() == tables[i].contexts().remove(
                order[i],
            ),
        forall|i: int| 0 <= i < n ==> order[i] != t,
    ensures
        tables[n].contexts().contains_key(t) == tables[0].contexts().contains_key(t),
        tables[0].contexts().contains_key(t) ==> tables[n].contexts()[t] == tables[0].contexts()[t],
    decreases n,
{
    if n > 0 {
        lemma_recover_prefix(tables, order, n - 1, t);
        assert(tables[(n - 1) + 1].contexts() == tables[n - 1].contexts().remove(order[n - 1]));
    }
}

} // verus!
