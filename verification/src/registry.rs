//! The window identity registry: a stable number for every native window
//! id, handed out in the order in which the ids are first seen.

use vstd::prelude::*;
use std::collections::HashMap;

verus! {

broadcast use vstd::std_specs::hash::group_hash_axioms;

/// What a registry knows: the stable id of every native id seen so far and
/// the stable id that the next new native id will get.
pub struct RegistryModel {
    pub ids: Map<u64, u64>,
    pub next: u64,
}

impl RegistryModel {
    /// The registry that has seen nothing: the first stable id is 1.
    pub open spec fn empty() -> RegistryModel {
        RegistryModel { ids: Map::empty(), next: 1 }
    }

    pub open spec fn knows(self, native_id: u64) -> bool {
        self.ids.contains_key(native_id)
    }

    /// The stable id that resolving `native_id` returns.
    pub open spec fn resolved(self, native_id: u64) -> u64 {
        if self.knows(native_id) {
            self.ids[native_id]
        } else {
            self.next
        }
    }

    /// The counter after one more stable id was handed out. Like the
    /// machine's counter it starts again at 0 after the largest number.
    pub open spec fn bumped(next: u64) -> u64 {
        if next == u64::MAX {
            0
        } else {
            (next + 1) as u64
        }
    }

    /// The registry after `native_id` was resolved.
    pub open spec fn after(self, native_id: u64) -> RegistryModel {
        if self.knows(native_id) {
            self
        } else {
            RegistryModel {
                ids: self.ids.insert(native_id, self.next),
                next: Self::bumped(self.next),
            }
        }
    }

    /// The registry after the native ids of `natives` were resolved in order.
    pub open spec fn after_all(self, natives: Seq<u64>) -> RegistryModel
        decreases natives.len(),
    {
        if natives.len() == 0 {
            self
        } else {
            self.after_all(natives.drop_last()).after(natives.last())
        }
    }

    /// The stable id returned for `natives[i]` when `natives` are resolved in order.
    pub open spec fn answer(self, natives: Seq<u64>, i: int) -> u64 {
        self.after_all(natives.take(i)).resolved(natives[i])
    }

    /// Whether `natives[i]` is seen for the first time at position `i`.
    pub open spec fn fresh_at(self, natives: Seq<u64>, i: int) -> bool {
        !self.after_all(natives.take(i)).knows(natives[i])
    }

    /// Whether `count` more stable ids can be handed out before the counter
    /// has used up its range.
    pub open spec fn has_room(self, count: nat) -> bool {
        self.next + count <= u64::MAX
    }

    /// The stable ids in use are exactly 1, 2, .. up to the counter, and no
    /// two native ids share one.
    pub open spec fn wf(self) -> bool {
        &&& self.ids.dom().finite()
        &&& 1 <= self.next
        &&& forall|n: u64| #[trigger] self.ids.contains_key(n) ==> 1 <= self.ids[n] < self.next
        &&& forall|a: u64, b: u64|
            #![trigger self.ids[a], self.ids[b]]
            self.ids.contains_key(a) && self.ids.contains_key(b) && self.ids[a] == self.ids[b]
                ==> a == b
        &&& forall|id: u64| 1 <= id < self.next ==> #[trigger] self.taken(id)
    }

    /// Whether some native id has the stable id `id`.
    pub open spec fn taken(self, id: u64) -> bool {
        exists|n: u64| #[trigger] self.ids.contains_key(n) && self.ids[n] == id
    }
}

/// Assigns and remembers a stable identity for each native window id.
/// Nothing is ever removed from it.
pub struct WindowRegistry {
    next_window_id: u64,
    window_ids: HashMap<u64, u64>,
}

impl View for WindowRegistry {
    type V = RegistryModel;

    closed spec fn view(&self) -> RegistryModel {
        RegistryModel { ids: self.window_ids@, next: self.next_window_id }
    }
}

impl WindowRegistry {
    /// A registry that has seen no window yet.
    pub fn new() -> (registry: WindowRegistry)
        ensures
            registry@ == RegistryModel::empty(),
            registry@.wf(),
    {
        let registry = WindowRegistry { next_window_id: 1, window_ids: HashMap::new() };
        assert(registry@.ids =~= Map::empty());
        registry
    }

    /// Returns the stable id of `native_id`. An id that was not seen before
    /// gets the next free number, and keeps it.
    pub fn resolve(&mut self, native_id: u64) -> (id: u64)
        ensures
            id == old(self)@.resolved(native_id),
            final(self)@ == old(self)@.after(native_id),
            old(self)@.wf() && (old(self)@.knows(native_id) || old(self)@.has_room(1))
                ==> final(self)@.wf(),
    {
        proof {
            if self@.wf() && (self@.knows(native_id) || self@.has_room(1)) {
                RegistryModel::lemma_after_keeps_wf(self@, native_id);
            }
        }
        match self.window_ids.get(&native_id) {
            Some(existing) => {
                return *existing;
            },
            None => {},
        }
        let next = self.next_window_id;
        self.next_window_id = next.wrapping_add(1);
        self.window_ids.insert(native_id, next);
        next
    }
}

impl RegistryModel {
    /// Resolving keeps a well-formed registry well-formed, as long as the
    /// id is known or the counter has room for one more.
    pub proof fn lemma_after_keeps_wf(m: RegistryModel, native_id: u64)
        requires
            m.wf(),
            m.knows(native_id) || m.has_room(1),
        ensures
            m.after(native_id).wf(),
    {
        if !m.knows(native_id) {
            let a = m.after(native_id);
            assert(a.ids.contains_key(native_id) && a.ids[native_id] == m.next);
            assert forall|id: u64| 1 <= id < a.next implies #[trigger] a.taken(id) by {
                if id < m.next {
                    assert(m.taken(id));
                    let n = choose|n: u64| #[trigger] m.ids.contains_key(n) && m.ids[n] == id;
                    assert(a.ids.contains_key(n) && a.ids[n] == id);
                } else {
                    assert(a.ids.contains_key(native_id) && a.ids[native_id] == id);
                }
            }
        }
    }

    /// What holds after any run of resolutions for which the counter has
    /// room: the registry stays well-formed, what it knew it still knows
    /// unchanged, and every answer it gave is the entry it ends up with.
    pub proof fn lemma_after_all(m: RegistryModel, natives: Seq<u64>)
        requires
            m.wf(),
            m.has_room(natives.len()),
        ensures
            m.after_all(natives).wf(),
            m.next <= m.after_all(natives).next <= m.next + natives.len(),
            forall|n: u64| #[trigger]
                m.knows(n) ==> m.after_all(natives).knows(n) && m.after_all(natives).ids[n]
                    == m.ids[n],
            forall|i: int|
                0 <= i < natives.len() ==> m.after_all(natives).knows(#[trigger] natives[i])
                    && m.answer(natives, i) == m.after_all(natives).ids[natives[i]],
        decreases natives.len(),
    {
        if natives.len() > 0 {
            let prefix = natives.drop_last();
            let p = m.after_all(prefix);
            let a = m.after_all(natives);
            Self::lemma_after_all(m, prefix);
            Self::lemma_after_keeps_wf(p, natives.last());
            assert forall|i: int| 0 <= i < natives.len() implies a.knows(#[trigger] natives[i])
                && m.answer(natives, i) == a.ids[natives[i]] by {
                if i < natives.len() - 1 {
                    assert(natives.take(i) =~= prefix.take(i));
                    assert(natives[i] == prefix[i]);
                    assert(m.answer(natives, i) == m.answer(prefix, i));
                } else {
                    assert(natives.take(i) =~= prefix);
                }
            }
        }
    }

    /// Law of identity: however native ids are presented, a repeated id
    /// gets the stable id it got before, and two different ids never get
    /// the same one.
    pub proof fn law_stable_and_injective(m: RegistryModel, natives: Seq<u64>, i: int, j: int)
        requires
            m.wf(),
            m.has_room(natives.len()),
            0 <= i < natives.len(),
            0 <= j < natives.len(),
        ensures
            natives[i] == natives[j] <==> m.answer(natives, i) == m.answer(natives, j),
    {
        Self::lemma_after_all(m, natives);
        let a = m.after_all(natives);
        assert(a.knows(natives[i]) && a.knows(natives[j]));
        assert(m.answer(natives, i) == a.ids[natives[i]]);
        assert(m.answer(natives, j) == a.ids[natives[j]]);
    }

    /// Law of allocation order: a native id that is seen for the first time
    /// gets a stable id larger than every stable id returned before it.
    pub proof fn law_allocation_order(m: RegistryModel, natives: Seq<u64>, i: int, j: int)
        requires
            m.wf(),
            m.has_room(natives.len()),
            0 <= i < j < natives.len(),
            m.fresh_at(natives, j),
        ensures
            m.answer(natives, i) < m.answer(natives, j),
    {
        let before = natives.take(j);
        Self::lemma_after_all(m, before);
        let q = m.after_all(before);
        assert(before.take(i) =~= natives.take(i));
        assert(before[i] == natives[i]);
        assert(m.answer(before, i) == m.answer(natives, i));
        assert(q.knows(before[i]));
    }

    /// Law of the first ids: a registry that has seen nothing numbers the
    /// native ids 1, 2, 3, .. in the order in which they first appear.
    pub proof fn law_counts_from_one(natives: Seq<u64>, j: int)
        requires
            natives.len() < u64::MAX,
            0 <= j < natives.len(),
            Self::empty().fresh_at(natives, j),
        ensures
            Self::empty().answer(natives, j) == Self::empty().after_all(natives.take(j)).ids.dom().len()
                + 1,
    {
        let before = natives.take(j);
        Self::lemma_after_all(Self::empty(), before);
        Self::lemma_counter_counts(Self::empty(), before);
        assert(Self::empty().ids.dom() =~= Set::<u64>::empty());
    }

    /// The counter moves by one for every native id that joins the registry.
    pub proof fn lemma_counter_counts(m: RegistryModel, natives: Seq<u64>)
        requires
            m.wf(),
            m.has_room(natives.len()),
        ensures
            m.after_all(natives).next - m.next == m.after_all(natives).ids.dom().len()
                - m.ids.dom().len(),
        decreases natives.len(),
    {
        if natives.len() > 0 {
            let prefix = natives.drop_last();
            Self::lemma_after_all(m, prefix);
            Self::lemma_counter_counts(m, prefix);
            let p = m.after_all(prefix);
            if !p.knows(natives.last()) {
                assert(p.after(natives.last()).ids.dom() =~= p.ids.dom().insert(natives.last()));
            }
        }
    }
}

} // verus!
