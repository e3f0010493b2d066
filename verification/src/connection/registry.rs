//! The table from object id to interface, with a stack of ids to use again.
use crate::types::object::Object;
use vstd::prelude::*;

verus! {

/// One more than the largest id a client may allocate; ids from here up
/// belong to the server.
pub const SERVER_ID_BASE: u32 = 0xFF00_0000;

/// Why an update of a slot was refused.
#[derive(Debug, Clone, Copy, PartialEq, Eq, Structural)]
pub enum RegistryError {
    /// The id lies beyond the table.
    NoSuchId,
    /// The slot holds another interface than the one offered.
    TypeMismatch,
}

/// The registry as a mathematical value: the interface in each slot and
/// the stack of freed ids, top last.
pub ghost struct RegistryView {
    pub slots: Seq<Object>,
    pub free: Seq<u32>,
}

impl RegistryView {
    /// Slot 0 is always empty, the table stays below the server's ids, and
    /// the free stack lists each empty slot but slot 0 exactly once.
    pub open spec fn wf(self) -> bool {
        &&& 1 <= self.slots.len() <= SERVER_ID_BASE
        &&& self.slots[0] is Null
        &&& forall|i: int|
            0 <= i < self.free.len() ==> 1 <= #[trigger] self.free[i] < self.slots.len()
                && self.slots[self.free[i] as int] is Null
        &&& forall|i: int, j: int|
            0 <= i < j < self.free.len() ==> #[trigger] self.free[i] != #[trigger] self.free[j]
        &&& forall|id: int|
            1 <= id < self.slots.len() && #[trigger] self.slots[id] is Null
                ==> self.free.contains(id as u32)
    }

    /// The registry of a new connection: nothing at 0, the display at 1.
    pub open spec fn initial() -> RegistryView {
        RegistryView { slots: seq![Object::Null, Object::WlDisplay], free: Seq::empty() }
    }

    /// Whether `id` names an object that has not been deleted.
    pub open spec fn is_live(self, id: u32) -> bool {
        id < self.slots.len() && self.slots[id as int] !is Null
    }

    /// The interface of `id`, if it is live.
    pub open spec fn lookup(self, id: u32) -> Option<Object> {
        if self.is_live(id) {
            Some(self.slots[id as int])
        } else {
            None
        }
    }

    /// What an update of the slot of `id` to `tag` answers: it succeeds
    /// exactly when the slot exists and holds `tag` already.
    pub open spec fn check_replace(self, id: u32, tag: Object) -> Result<(), RegistryError> {
        if id >= self.slots.len() {
            Err(RegistryError::NoSuchId)
        } else if self.slots[id as int] != tag {
            Err(RegistryError::TypeMismatch)
        } else {
            Ok(())
        }
    }

    /// Whether an id is left to hand out.
    pub open spec fn can_allocate(self) -> bool {
        self.free.len() > 0 || self.slots.len() < SERVER_ID_BASE
    }

    /// The id that the next allocation hands out: the one freed last, or
    /// else the first beyond the table.
    pub open spec fn next_id(self) -> u32 {
        if self.free.len() > 0 {
            self.free.last()
        } else {
            self.slots.len() as u32
        }
    }

    /// The registry after `next_id()` was given the interface `tag`.
    pub open spec fn allocate(self, tag: Object) -> RegistryView {
        if self.free.len() > 0 {
            RegistryView {
                slots: self.slots.update(self.free.last() as int, tag),
                free: self.free.drop_last(),
            }
        } else {
            RegistryView { slots: self.slots.push(tag), free: self.free }
        }
    }

    /// The registry after `id` was released. Releasing what is not live
    /// changes nothing.
    pub open spec fn delete(self, id: u32) -> RegistryView {
        if self.is_live(id) {
            RegistryView { slots: self.slots.update(id as int, Object::Null), free: self.free.push(id) }
        } else {
            self
        }
    }

    /// The live objects: each live id with the interface it is bound to.
    pub open spec fn live_map(self) -> Map<u32, Object> {
        Map::new(|id: u32| self.is_live(id), |id: u32| self.slots[id as int])
    }

    /// Number of live objects.
    pub open spec fn live_count(self) -> int {
        self.slots.len() - 1 - self.free.len()
    }

    /// The registry after one allocation for each of `tags`, in order.
    pub open spec fn allocate_all(self, tags: Seq<Object>) -> RegistryView
        decreases tags.len(),
    {
        if tags.len() == 0 {
            self
        } else {
            self.allocate(tags[0]).allocate_all(tags.drop_first())
        }
    }

    /// The registry after each of `ids` was released, in order.
    pub open spec fn delete_all(self, ids: Seq<u32>) -> RegistryView
        decreases ids.len(),
    {
        if ids.len() == 0 {
            self
        } else {
            self.delete(ids[0]).delete_all(ids.drop_first())
        }
    }
}

/// Allocation keeps the registry well formed, hands out an id that was not
/// live and binds it to `tag`, leaves every other slot alone, and grows the
/// table only when no freed id is left. Seen as a map from live ids to
/// interfaces, the registry gains exactly the new id.
pub proof fn lemma_allocate(r: RegistryView, tag: Object)
    requires
        r.wf(),
        tag !is Null,
        r.can_allocate(),
    ensures
        r.allocate(tag).wf(),
        !r.is_live(r.next_id()),
        r.next_id() != 0,
        r.allocate(tag).lookup(r.next_id()) == Some(tag),
        forall|id: u32| id != r.next_id() ==> r.allocate(tag).lookup(id) == r.lookup(id),
        !r.live_map().contains_key(r.next_id()),
        r.allocate(tag).live_map() == r.live_map().insert(r.next_id(), tag),
        r.allocate(tag).live_count() == r.live_count() + 1,
        r.free.len() > 0 ==> r.allocate(tag).slots.len() == r.slots.len(),
        r.free.len() == 0 ==> r.allocate(tag).slots.len() == r.slots.len() + 1,
{
    let a = r.allocate(tag);
    if r.free.len() > 0 {
        assert forall|id: int|
            1 <= id < a.slots.len() && #[trigger] a.slots[id] is Null implies a.free.contains(
            id as u32,
        ) by {
            let k = choose|k: int| 0 <= k < r.free.len() && r.free[k] == id as u32;
            assert(a.free[k] == id as u32);
        }
    }
}

/// Releasing an id keeps the registry well formed; a live id becomes free
/// and is the next to be handed out, and no other slot changes. Seen as a
/// map from live ids to interfaces, the registry loses exactly that id.
pub proof fn lemma_delete(r: RegistryView, id: u32)
    requires
        r.wf(),
    ensures
        r.delete(id).wf(),
        r.delete(id).lookup(id) is None,
        forall|other: u32| other != id ==> r.delete(id).lookup(other) == r.lookup(other),
        r.delete(id).live_map() == r.live_map().remove(id),
        r.delete(id).slots.len() == r.slots.len(),
        r.is_live(id) ==> r.delete(id).next_id() == id && r.delete(id).live_count()
            == r.live_count() - 1,
        !r.is_live(id) ==> r.delete(id) == r,
{
    let d = r.delete(id);
    if r.is_live(id) {
        assert forall|k: int| 1 <= k < d.slots.len() && #[trigger] d.slots[k] is Null implies d.free.contains(
            k as u32,
        ) by {
            if k != id {
                assert(r.slots[k] is Null);
                let i = choose|i: int| 0 <= i < r.free.len() && r.free[i] == k as u32;
                assert(d.free[i] == k as u32);
            }
        }
    }
}

/// An id released and allocated again is the same id, now bound to the new
/// interface; nothing else in the registry differs from before the release.
pub proof fn lemma_delete_then_allocate(r: RegistryView, id: u32, tag: Object)
    requires
        r.wf(),
        r.is_live(id),
    ensures
        r.delete(id).next_id() == id,
        r.delete(id).allocate(tag).slots == r.slots.update(id as int, tag),
        r.delete(id).allocate(tag).free == r.free,
{
}

/// All of `tags` are interfaces, none the empty tag.
pub open spec fn all_interfaces(tags: Seq<Object>) -> bool {
    forall|i: int| 0 <= i < tags.len() ==> #[trigger] tags[i] !is Null
}

/// A run of allocations uses the freed ids first and grows the table only by
/// what they do not cover.
pub proof fn lemma_allocate_all(r: RegistryView, tags: Seq<Object>)
    requires
        r.wf(),
        all_interfaces(tags),
        r.slots.len() - r.free.len() + tags.len() <= SERVER_ID_BASE,
    ensures
        r.allocate_all(tags).wf(),
        r.allocate_all(tags).live_count() == r.live_count() + tags.len(),
        tags.len() <= r.free.len() ==> r.allocate_all(tags).slots.len() == r.slots.len(),
        tags.len() > r.free.len() ==> r.allocate_all(tags).slots.len() == r.slots.len()
            + tags.len() - r.free.len(),
    decreases tags.len(),
{
    if tags.len() > 0 {
        lemma_allocate(r, tags[0]);
        let rest = tags.drop_first();
        lemma_allocate_all(r.allocate(tags[0]), rest);
    }
}

/// A run of releases never grows the table.
pub proof fn lemma_delete_all(r: RegistryView, ids: Seq<u32>)
    requires
        r.wf(),
    ensures
        r.delete_all(ids).wf(),
        r.delete_all(ids).slots.len() == r.slots.len(),
        r.delete_all(ids).free.len() >= r.free.len(),
        r.delete_all(ids).live_count() <= r.live_count(),
        r.delete_all(ids).live_count() >= r.live_count() - ids.len(),
    decreases ids.len(),
{
    if ids.len() > 0 {
        lemma_delete(r, ids[0]);
        lemma_delete_all(r.delete(ids[0]), ids.drop_first());
    }
}

/// On a new connection, `first` allocations, then the releases `ids`, then
/// as many allocations again as ids were really released, leave the table no
/// longer than after the first round: every id handed out is at most
/// `first.len() + 1`, the display being id 1.
pub proof fn lemma_ids_bounded(first: Seq<Object>, ids: Seq<u32>, again: Seq<Object>)
    requires
        all_interfaces(first),
        all_interfaces(again),
        first.len() + 2 <= SERVER_ID_BASE,
        again.len() <= RegistryView::initial().allocate_all(first).delete_all(ids).free.len(),
    ensures
        RegistryView::initial().allocate_all(first).delete_all(ids).allocate_all(again).wf(),
        RegistryView::initial().allocate_all(first).delete_all(ids).allocate_all(again).slots.len()
            == first.len() + 2,
{
    let r0 = RegistryView::initial();
    lemma_allocate_all(r0, first);
    let r1 = r0.allocate_all(first);
    lemma_delete_all(r1, ids);
    let r2 = r1.delete_all(ids);
    lemma_allocate_all(r2, again);
}

/// The table of objects of one connection.
#[derive(Debug)]
pub struct Registry {
    objects: Vec<Object>,
    used_ids: Vec<u32>,
}

impl View for Registry {
    type V = RegistryView;

    closed spec fn view(&self) -> RegistryView {
        RegistryView { slots: self.objects@, free: self.used_ids@ }
    }
}

impl Registry {
    /// The invariant of the registry; see `RegistryView::wf`.
    pub open spec fn wf(&self) -> bool {
        self@.wf()
    }

    /// The registry of a new connection: slot 0 empty, the display at 1.
    pub fn new() -> (r: Self)
        ensures
            r.wf(),
            r@ == RegistryView::initial(),
    {
        let mut objects = Vec::with_capacity(1024);
        objects.push(Object::Null);
        objects.push(Object::WlDisplay);
        let r = Registry { objects, used_ids: Vec::with_capacity(10) };
        proof {
            assert(r@.slots =~= RegistryView::initial().slots);
        }
        r
    }

    /// Number of slots, slot 0 included.
    pub fn len(&self) -> (n: usize)
        ensures
            n == self@.slots.len(),
    {
        self.objects.len()
    }

    /// Whether an id is left to hand out.
    pub fn can_allocate(&self) -> (b: bool)
        ensures
            b == self@.can_allocate(),
    {
        self.used_ids.len() > 0 || self.objects.len() < SERVER_ID_BASE as usize
    }

    /// Hands out an id for a new object of interface `tag`: the id freed
    /// last if there is one, else the next beyond the table.
    pub fn allocate(&mut self, tag: Object) -> (id: u32)
        requires
            old(self).wf(),
            tag !is Null,
            old(self)@.can_allocate(),
        ensures
            final(self).wf(),
            final(self)@ == old(self)@.allocate(tag),
            id == old(self)@.next_id(),
    {
        proof {
            lemma_allocate(self@, tag);
        }
        if let Some(id) = self.used_ids.pop() {
            self.objects[id as usize] = tag;
            id
        } else {
            self.objects.push(tag);
            (self.objects.len() - 1) as u32
        }
    }

    /// The interface of `id`; none for an id beyond the table or a slot
    /// that is empty.
    pub fn lookup(&self, id: u32) -> (r: Option<Object>)
        ensures
            r == self@.lookup(id),
    {
        if (id as usize) < self.objects.len() {
            let tag = self.objects[id as usize];
            if tag == Object::Null {
                None
            } else {
                Some(tag)
            }
        } else {
            None
        }
    }

    /// Writes `tag` over the slot of `id`, which must hold the same
    /// interface already.
    pub fn replace(&mut self, id: u32, tag: Object) -> (r: Result<(), RegistryError>)
        ensures
            final(self)@ == old(self)@,
            r == old(self)@.check_replace(id, tag),
    {
        if id as usize >= self.objects.len() {
            return Err(RegistryError::NoSuchId);
        }
        if self.objects[id as usize] != tag {
            return Err(RegistryError::TypeMismatch);
        }
        self.objects[id as usize] = tag;
        assert(self@.slots =~= old(self)@.slots);
        Ok(())
    }

    /// Empties the slot of `id` and puts the id on the free stack. An id
    /// whose slot is empty already stays as it is.
    pub fn delete(&mut self, id: u32)
        requires
            old(self).wf(),
            id < old(self)@.slots.len(),
        ensures
            final(self).wf(),
            final(self)@ == old(self)@.delete(id),
    {
        proof {
            lemma_delete(self@, id);
        }
        if self.objects[id as usize] != Object::Null {
            self.objects[id as usize] = Object::Null;
            self.used_ids.push(id);
        }
    }
}

} // verus!
