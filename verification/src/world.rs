//! The store: entity allocation, per-component columns, and the lookup
//! from component identity to column.

use crate::component::ComponentId;
use crate::entity::{Entity, EntityGenerator};
use vstd::prelude::*;

verus! {

/// The two ways a store operation can be misused. Both stand for
/// programmer errors, surfaced at the call site rather than recovered
/// from.
#[derive(Clone, Copy, Debug, PartialEq, Eq, Structural)]
pub enum WorldError {
    /// The component type was already registered; registering it again
    /// would silently replace its storage.
    ComponentAlreadyRegistered,
    /// The component type was never registered, so there is no column
    /// to attach to or read from.
    ComponentNotRegistered,
}

/// Per-component-type storage: a growable sequence of optional values,
/// indexed by an entity's numeric identity. Unset slots are exactly the
/// entities that do not carry the component.
pub struct Column<A> {
    slots: Vec<Option<A>>,
}

impl<A> View for Column<A> {
    type V = Seq<Option<A>>;

    closed spec fn view(&self) -> Seq<Option<A>> {
        self.slots@
    }
}

impl<A> Column<A> {
    /// A fresh, empty column.
    pub fn new() -> (r: Self)
        ensures
            r@.len() == 0,
    {
        Column { slots: Vec::new() }
    }

    /// Write `value` into the slot at `index`, first growing the column
    /// with empty slots up to and including that index. The column never
    /// shrinks, and no other slot changes.
    pub fn set(&mut self, index: usize, value: Option<A>)
        requires
            index < usize::MAX,
        ensures
            final(self)@.len() == if old(self)@.len() > index + 1 {
                old(self)@.len() as int
            } else {
                index + 1
            },
            final(self)@[index as int] == value,
            forall|j: int|
                0 <= j < final(self)@.len() && j != index ==> final(self)@[j] == (if j < old(
                    self,
                )@.len() {
                    old(self)@[j]
                } else {
                    None::<A>
                }),
    {
        while self.slots.len() <= index
            invariant
                index < usize::MAX,
                self.slots@.len() <= index + 1 || self.slots@.len() == old(self)@.len(),
                forall|j: int| 0 <= j < old(self)@.len() ==> self.slots@[j] == old(self)@[j],
                forall|j: int|
                    old(self)@.len() <= j < self.slots@.len() ==> self.slots@[j] == None::<A>,
                old(self)@.len() <= self.slots@.len(),
            decreases index + 1 - self.slots@.len(),
        {
            self.slots.push(None);
        }
        self.slots[index] = value;
    }

    /// Read the slot at `index`: the stored value if the index is within
    /// the column and the slot is set, nothing otherwise — also when the
    /// index lies beyond the column's current length.
    pub fn get(&self, index: usize) -> (r: Option<&A>)
        ensures
            match r {
                Some(a) => index < self@.len() && self@[index as int] == Some(*a),
                None => index >= self@.len() || self@[index as int] is None,
            },
    {
        if index < self.slots.len() {
            self.slots[index].as_ref()
        } else {
            None
        }
    }
}

/// The store. It owns the entity allocator, one column per registered
/// component type, and the lookup from component identity to the
/// column's position.
pub struct World<A> {
    entity_generator: EntityGenerator,
    component_lookup: Vec<(ComponentId, usize)>,
    components: Vec<Column<A>>,
}

/// Whether the lookup sequence holds an entry for this component.
spec fn lookup_contains(lookup: Seq<(ComponentId, usize)>, c: ComponentId) -> bool {
    exists|k: int| 0 <= k < lookup.len() && lookup[k].0 == c
}

/// The position of this component's entry in the lookup sequence.
spec fn lookup_slot(lookup: Seq<(ComponentId, usize)>, c: ComponentId) -> int {
    choose|k: int| 0 <= k < lookup.len() && lookup[k].0 == c
}

impl<A> World<A> {
    /// The raw value of the highest entity identity handed out so far.
    pub closed spec fn entity_count(self) -> u64 {
        self.entity_generator.current()
    }

    /// Whether this component type has been registered.
    pub closed spec fn registered(self, c: ComponentId) -> bool {
        lookup_contains(self.component_lookup@, c)
    }

    /// The column of a registered component type, as a sequence of
    /// optional values indexed by entity identity.
    pub closed spec fn column(self, c: ComponentId) -> Seq<Option<A>> {
        self.components@[self.component_lookup@[lookup_slot(self.component_lookup@, c)].1 as int]@
    }

    /// What a read of component `c` on the entity with identity `i`
    /// yields: the stored value for a set slot within the column,
    /// nothing for an unset slot or an identity beyond the column.
    pub open spec fn read(self, c: ComponentId, i: int) -> Option<A> {
        if self.registered(c) && 0 <= i < self.column(c).len() {
            self.column(c)[i]
        } else {
            None
        }
    }

    /// The store's invariant: each registered component has exactly one
    /// lookup entry, entries point at distinct existing columns.
    pub closed spec fn wf(self) -> bool {
        &&& forall|k1: int, k2: int|
            #![trigger self.component_lookup@[k1], self.component_lookup@[k2]]
            0 <= k1 < k2 < self.component_lookup@.len() ==> self.component_lookup@[k1].0
                != self.component_lookup@[k2].0 && self.component_lookup@[k1].1
                != self.component_lookup@[k2].1
        &&& forall|k: int|
            0 <= k < self.component_lookup@.len() ==> (#[trigger] self.component_lookup@[k].1)
                < self.components@.len()
    }

    /// What a successful attachment of `value` for component `c` at
    /// entity identity `i` does: that column alone changes; it grows
    /// just enough to hold slot `i`, which now holds `value`, while
    /// every other slot keeps its old value (empty where it was beyond
    /// the old length).
    pub open spec fn attach_post(
        pre: World<A>,
        post: World<A>,
        c: ComponentId,
        i: int,
        value: Option<A>,
    ) -> bool {
        &&& post.entity_count() == pre.entity_count()
        &&& forall|c2: ComponentId| #[trigger] post.registered(c2) <==> pre.registered(c2)
        &&& forall|c2: ComponentId|
            c2 != c && pre.registered(c2) ==> #[trigger] post.column(c2) == pre.column(c2)
        &&& post.column(c).len() == if pre.column(c).len() > i + 1 {
            pre.column(c).len() as int
        } else {
            i + 1
        }
        &&& post.column(c)[i] == value
        &&& forall|j: int|
            0 <= j < post.column(c).len() && j != i ==> post.column(c)[j] == (if j < pre.column(
                c,
            ).len() {
                pre.column(c)[j]
            } else {
                None::<A>
            })
    }

    /// An empty store: nothing registered, the entity allocator at its
    /// initial state.
    pub fn new() -> (r: Self)
        ensures
            r.wf(),
            r.entity_count() == 0,
            forall|c: ComponentId| !r.registered(c),
    {
        World {
            entity_generator: EntityGenerator::new(),
            component_lookup: Vec::new(),
            components: Vec::new(),
        }
    }

    /// Hand out the next entity identity. Entities are strictly
    /// increasing, never null, and the columns are untouched.
    pub fn generate_entity(&mut self) -> (r: Entity)
        requires
            old(self).wf(),
            old(self).entity_count() < u64::MAX,
        ensures
            final(self).wf(),
            final(self).entity_count() == old(self).entity_count() + 1,
            r@ == old(self).entity_count() + 1,
            r@ != 0,
            forall|c: ComponentId| #[trigger] final(self).registered(c) == old(self).registered(c),
            forall|c: ComponentId|
                old(self).registered(c) ==> #[trigger] final(self).column(c) == old(self).column(
                    c,
                ),
    {
        self.entity_generator.generate()
    }

    /// Find the lookup entry for a component, if any.
    fn find(&self, component: ComponentId) -> (r: Option<usize>)
        requires
            self.wf(),
        ensures
            r is Some <==> self.registered(component),
            match r {
                Some(k) => k < self.component_lookup@.len() && self.component_lookup@[k as int].0
                    == component && lookup_slot(self.component_lookup@, component) == k,
                None => true,
            },
    {
        let n = self.component_lookup.len();
        let mut k: usize = 0;
        while k < n
            invariant
                self.wf(),
                n == self.component_lookup@.len(),
                k <= n,
                forall|j: int|
                    0 <= j < k ==> (#[trigger] self.component_lookup@[j].0) != component,
            decreases n - k,
        {
            if self.component_lookup[k].0 == component {
                proof {
                    lemma_lookup_slot_unique(self.component_lookup@, component, k as int);
                }
                return Some(k);
            }
            k += 1;
        }
        None
    }

    /// Register a component type: allocate a fresh, empty column for it
    /// and record the column's position under the component's identity.
    /// Registering the same component twice is refused, so a type's
    /// storage is never silently replaced.
    pub fn register_component(&mut self, component: ComponentId) -> (r: Result<
        ComponentId,
        WorldError,
    >)
        requires
            old(self).wf(),
        ensures
            final(self).wf(),
            r is Ok <==> !old(self).registered(component),
            old(self).registered(component) ==> r == Err::<ComponentId, WorldError>(
                WorldError::ComponentAlreadyRegistered,
            ) && *final(self) == *old(self),
            !old(self).registered(component) ==> {
                &&& r == Ok::<ComponentId, WorldError>(component)
                &&& final(self).registered(component)
                &&& final(self).column(component).len() == 0
                &&& final(self).entity_count() == old(self).entity_count()
                &&& forall|c2: ComponentId|
                    c2 != component ==> (#[trigger] final(self).registered(c2) <==> old(
                        self,
                    ).registered(c2))
                &&& forall|c2: ComponentId|
                    c2 != component && old(self).registered(c2) ==> #[trigger] final(self).column(
                        c2,
                    ) == old(self).column(c2)
            },
    {
        if self.find(component).is_some() {
            return Err(WorldError::ComponentAlreadyRegistered);
        }
        let ghost pre = *self;
        let index = self.components.len();
        self.component_lookup.push((component, index));
        self.components.push(Column::new());
        proof {
            let lk = self.component_lookup@;
            let n = pre.component_lookup@.len() as int;
            assert forall|k1: int, k2: int|
                #![trigger lk[k1], lk[k2]]
                0 <= k1 < k2 < lk.len() implies lk[k1].0 != lk[k2].0 && lk[k1].1 != lk[k2].1 by {
                if k2 < n {
                    assert(pre.component_lookup@[k1] == lk[k1]);
                    assert(pre.component_lookup@[k2] == lk[k2]);
                } else {
                    assert(lk[k1] == pre.component_lookup@[k1]);
                    assert(lk[k1].1 < pre.components@.len());
                    assert(lk[k1].0 != component);
                }
            }
            lemma_lookup_slot_unique(lk, component, n);
            assert(self.column(component).len() == 0);
            assert forall|c2: ComponentId| c2 != component implies (#[trigger] self.registered(c2)
                <==> pre.registered(c2)) by {
                if self.registered(c2) {
                    let j = lookup_slot(lk, c2);
                    assert(lk[j].0 == c2);
                    assert(j < n);
                    assert(pre.component_lookup@[j].0 == c2);
                }
                if pre.registered(c2) {
                    let j = lookup_slot(pre.component_lookup@, c2);
                    assert(lk[j].0 == c2);
                }
            }
            assert forall|c2: ComponentId|
                c2 != component && pre.registered(c2) implies #[trigger] self.column(c2)
                == pre.column(c2) by {
                let j = lookup_slot(pre.component_lookup@, c2);
                assert(lk[j].0 == c2);
                lemma_lookup_slot_unique(lk, c2, j);
                lemma_lookup_slot_unique(pre.component_lookup@, c2, j);
                assert(lk[j].1 < pre.components@.len());
                assert(self.components@[lk[j].1 as int] == pre.components@[lk[j].1 as int]);
            }
        }
        Ok(component)
    }

    /// Attach `value` as entity `entity`'s instance of component
    /// `component`, growing that component's column on demand. Attaching
    /// an empty value clears the slot without shrinking the column.
    /// Attachment to a component that was never registered is refused.
    pub fn register_component_on_entity(
        &mut self,
        component: ComponentId,
        entity: Entity,
        initial_state: Option<A>,
    ) -> (r: Result<(), WorldError>)
        requires
            old(self).wf(),
            entity@ < usize::MAX,
        ensures
            final(self).wf(),
            r is Ok <==> old(self).registered(component),
            !old(self).registered(component) ==> r == Err::<(), WorldError>(
                WorldError::ComponentNotRegistered,
            ) && *final(self) == *old(self),
            old(self).registered(component) ==> Self::attach_post(
                *old(self),
                *final(self),
                component,
                entity@ as int,
                initial_state,
            ),
    {
        let found = self.find(component);
        match found {
            None => Err(WorldError::ComponentNotRegistered),
            Some(k) => {
                let ghost pre = *self;
                let index = self.component_lookup[k].1;
                let eidx = entity.id().raw() as usize;
                let col = &mut self.components[index];
                col.set(eidx, initial_state);
                proof {
                    let lk = self.component_lookup@;
                    assert(lk == pre.component_lookup@);
                    assert(self.components@ == pre.components@.update(
                        index as int,
                        self.components@[index as int],
                    ));
                    assert(self.wf());
                    assert(self.column(component) == self.components@[index as int]@);
                    assert forall|c2: ComponentId| #[trigger]
                        self.registered(c2) <==> pre.registered(c2) by {}
                    assert forall|c2: ComponentId|
                        c2 != component && pre.registered(c2) implies #[trigger] self.column(c2)
                        == pre.column(c2) by {
                        let j = lookup_slot(pre.component_lookup@, c2);
                        assert(lk[j].0 == c2);
                        lemma_lookup_slot_unique(lk, c2, j);
                        assert(j != k as int);
                        assert(lk[j].1 != index);
                        assert(self.components@[lk[j].1 as int] == pre.components@[lk[
                            j].1 as int]);
                    }
                }
                Ok(())
            },
        }
    }

    /// Read entity `entity`'s instance of component `component`: the
    /// attached value if one is set, nothing if the slot is unset or the
    /// entity's identity lies beyond the column. Reading a component
    /// that was never registered is refused.
    pub fn get_component_on_entity(&self, component: ComponentId, entity: Entity) -> (r: Result<
        Option<&A>,
        WorldError,
    >)
        requires
            self.wf(),
            entity@ <= usize::MAX,
        ensures
            r is Ok <==> self.registered(component),
            !self.registered(component) ==> r == Err::<Option<&A>, WorldError>(
                WorldError::ComponentNotRegistered,
            ),
            self.registered(component) ==> match r {
                Ok(Some(a)) => self.read(component, entity@ as int) == Some(*a),
                Ok(None) => self.read(component, entity@ as int) is None,
                Err(_) => false,
            },
    {
        let found = self.find(component);
        match found {
            None => Err(WorldError::ComponentNotRegistered),
            Some(k) => {
                let index = self.component_lookup[k].1;
                let eidx = entity.id().raw() as usize;
                let r = self.components[index].get(eidx);
                proof {
                    assert(self.column(component) == self.components@[index as int]@);
                }
                Ok(r)
            },
        }
    }
}

/// A lookup entry whose component matches is the lookup's one entry for
/// that component.
proof fn lemma_lookup_slot_unique(lookup: Seq<(ComponentId, usize)>, c: ComponentId, k: int)
    requires
        0 <= k < lookup.len(),
        lookup[k].0 == c,
        forall|k1: int, k2: int|
            #![trigger lookup[k1], lookup[k2]]
            0 <= k1 < k2 < lookup.len() ==> lookup[k1].0 != lookup[k2].0,
    ensures
        lookup_contains(lookup, c),
        lookup_slot(lookup, c) == k,
{
    assert(lookup_contains(lookup, c));
    let j = lookup_slot(lookup, c);
    assert(0 <= j < lookup.len() && lookup[j].0 == c);
    if j < k {
        assert(lookup[j].0 != lookup[k].0);
    } else if k < j {
        assert(lookup[k].0 != lookup[j].0);
    }
}

/// Attach/read round-trip: after a successful attachment of a value for
/// component `c` at entity identity `i`, a read of `c` at `i` yields
/// exactly that value — until it is overwritten.
pub proof fn lemma_attach_read_round_trip<A>(
    pre: World<A>,
    post: World<A>,
    c: ComponentId,
    i: int,
    v: A,
)
    requires
        post.registered(c),
        World::<A>::attach_post(pre, post, c, i, Some(v)),
        i >= 0,
    ensures
        post.read(c, i) == Some(v),
{
}

/// Unattached reads yield nothing: for a registered component, a read
/// of an unset slot yields nothing, also when the entity's identity
/// lies beyond the column's current length.
pub proof fn lemma_unattached_read_none<A>(w: World<A>, c: ComponentId, i: int)
    requires
        w.registered(c),
        i >= w.column(c).len() || !(0 <= i < w.column(c).len() && w.column(c)[i] is Some),
    ensures
        w.read(c, i) is None,
{
}

/// Overwrite semantics: attaching an empty value clears the slot, and
/// any attachment leaves every other slot of the column, and every
/// other registered component's column, as they were.
pub proof fn lemma_overwrite<A>(
    pre: World<A>,
    post: World<A>,
    c: ComponentId,
    c2: ComponentId,
    i: int,
    j: int,
    value: Option<A>,
)
    requires
        post.registered(c),
        World::<A>::attach_post(pre, post, c, i, value),
        0 <= i,
        0 <= j,
        j != i,
        c2 != c,
        pre.registered(c2),
    ensures
        value is None ==> post.read(c, i) is None,
        value == Some(post.read(c, i).unwrap()) || value is None,
        post.read(c, j) == pre.read(c, j),
        post.read(c2, j) == pre.read(c2, j),
        post.read(c2, i) == pre.read(c2, i),
{
    assert(pre.registered(c));
    if j < post.column(c).len() {
        if j < pre.column(c).len() {
        } else {
            assert(post.column(c)[j] == None::<A>);
        }
    }
}

} // verus!
