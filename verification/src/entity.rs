//! Entities and the allocator that hands out their identities.

use crate::Id;
use vstd::prelude::*;

verus! {

/// A uniquely identified object of the simulated world. An entity is an
/// opaque handle carrying no data of its own; all state lives in the
/// component columns, indexed by the entity's numeric identity.
#[derive(Clone, Copy, Debug, PartialEq, Eq, Structural, PartialOrd, Ord)]
pub struct Entity(Id);

impl View for Entity {
    type V = u64;

    closed spec fn view(&self) -> u64 {
        self.0@
    }
}

impl Entity {
    /// Wrap an identity as an entity handle.
    pub fn new(id: Id) -> (r: Self)
        ensures
            r@ == id@,
    {
        Entity(id)
    }

    /// The identity backing this entity.
    pub fn id(&self) -> (r: Id)
        ensures
            r@ == self@,
    {
        self.0
    }
}

/// An entity is nothing but its identity: entities with equal
/// identities are the same entity.
pub proof fn lemma_entity_injective(a: Entity, b: Entity)
    requires
        a@ == b@,
    ensures
        a == b,
{
}

/// Monotonic generator of entity identities. Every generated identity is
/// one above the previous one, so the identities of one generator are
/// pairwise distinct, strictly increasing, and never the null identity.
pub struct EntityGenerator {
    current: Id,
}

impl EntityGenerator {
    /// The raw value of the highest identity handed out so far; 0 when
    /// none has been.
    pub closed spec fn current(self) -> u64 {
        self.current@
    }

    /// A fresh generator, starting at the null identity.
    pub fn new() -> (r: Self)
        ensures
            r.current() == 0,
    {
        EntityGenerator { current: Id::new(0) }
    }

    /// Hand out the next entity identity: one above the previous one,
    /// hence never the null identity.
    pub fn generate(&mut self) -> (r: Entity)
        requires
            old(self).current() < u64::MAX,
        ensures
            final(self).current() == old(self).current() + 1,
            r@ == old(self).current() + 1,
            r@ != 0,
    {
        self.current = self.current.add(Id::new(1));
        Entity::new(self.current)
    }
}

/// Entity uniqueness: along any run of successive calls to `generate`,
/// where each call returns one above the generator's previous high mark
/// and raises that mark by one, the returned identities are pairwise
/// distinct, strictly increasing, and never the null identity.
///
/// `marks[i]` is the generator's high mark before the `i`-th call and
/// `ids[i]` the identity returned by it.
pub proof fn lemma_entity_uniqueness(marks: Seq<u64>, ids: Seq<u64>)
    requires
        ids.len() == marks.len(),
        forall|i: int| 0 <= i < ids.len() ==> ids[i] == marks[i] + 1,
        forall|i: int| 0 <= i < marks.len() - 1 ==> #[trigger] marks[i + 1] == marks[i] + 1,
    ensures
        forall|i: int, j: int| 0 <= i < j < ids.len() ==> ids[i] < ids[j],
        forall|i: int, j: int| 0 <= i < j < ids.len() ==> ids[i] != ids[j],
        forall|i: int| 0 <= i < ids.len() ==> ids[i] != 0,
{
    assert forall|i: int, j: int| 0 <= i < j < ids.len() implies ids[i] < ids[j] by {
        lemma_marks_grow(marks, i, j);
    }
}

/// Between two positions of a run of successive calls, the high mark
/// grows by exactly the distance between them.
proof fn lemma_marks_grow(marks: Seq<u64>, i: int, j: int)
    requires
        0 <= i <= j < marks.len(),
        forall|k: int| 0 <= k < marks.len() - 1 ==> #[trigger] marks[k + 1] == marks[k] + 1,
    ensures
        marks[j] == marks[i] + (j - i),
    decreases j - i,
{
    if i < j {
        lemma_marks_grow(marks, i, j - 1);
        assert(marks[(j - 1) + 1] == marks[j - 1] + 1);
    }
}

} // verus!
