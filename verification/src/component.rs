//! Component identities and the process-wide registry that assigns them.

use crate::Id;
use vstd::prelude::*;

verus! {

/// The identity of a *type* of component, not of an instance. Assigned
/// once per distinct component type name, stable for as long as the
/// registry lives.
#[derive(Clone, Copy, Debug, PartialEq, Eq, Structural, PartialOrd, Ord, Hash)]
pub struct ComponentId(Id);

impl View for ComponentId {
    type V = u64;

    closed spec fn view(&self) -> u64 {
        self.0@
    }
}

/// A value type attachable to entities. The store never inspects a
/// component's contents; the sole obligation on an implementor is to
/// return one stable `ComponentId` for the type, obtained from the
/// registry under a name that is unique to the type.
pub trait Component {
    /// The stable identity of this component type.
    fn id() -> ComponentId;
}

/// Registry mapping component type names to component identities.
///
/// The first request for a name assigns the next free identity; later
/// requests for the same name return the same identity, so identities
/// are referentially stable and two distinct names never collide.
pub struct ComponentGenerator {
    entries: Vec<(String, ComponentId)>,
    current: Id,
}

impl ComponentGenerator {
    /// The raw value of the highest identity assigned so far; 0 when
    /// none has been.
    pub closed spec fn count(self) -> u64 {
        self.current@
    }

    /// Whether an identity has been assigned under this name.
    pub closed spec fn contains_name(self, name: Seq<char>) -> bool {
        exists|k: int| 0 <= k < self.entries@.len() && self.entries@[k].0@ == name
    }

    /// The position of a name's entry in the registry.
    spec fn index_of(self, name: Seq<char>) -> int {
        choose|k: int| 0 <= k < self.entries@.len() && self.entries@[k].0@ == name
    }

    /// The raw identity assigned under this name.
    pub closed spec fn id_of(self, name: Seq<char>) -> u64 {
        self.entries@[self.index_of(name)].1@
    }

    /// The registry's invariant: one entry per name, identities assigned
    /// in order starting at 1.
    pub closed spec fn wf(self) -> bool {
        &&& self.entries@.len() == self.count()
        &&& forall|k: int| 0 <= k < self.entries@.len() ==> #[trigger] self.entries@[k].1@ == k + 1
        &&& forall|k1: int, k2: int|
            #![trigger self.entries@[k1], self.entries@[k2]]
            0 <= k1 < k2 < self.entries@.len() ==> self.entries@[k1].0@ != self.entries@[k2].0@
    }

    /// What one call of `generate` does: the returned identity is the
    /// one recorded under `name`, never null; a name already present
    /// keeps its identity and the registry is unchanged; a new name is
    /// assigned the next free identity and no other name is touched.
    pub open spec fn generate_post(pre: Self, post: Self, name: Seq<char>, r: u64) -> bool {
        &&& post.contains_name(name)
        &&& post.id_of(name) == r
        &&& r != 0
        &&& if pre.contains_name(name) {
            post == pre && r == pre.id_of(name)
        } else {
            &&& r == pre.count() + 1
            &&& post.count() == pre.count() + 1
            &&& forall|m: Seq<char>|
                m != name ==> (#[trigger] post.contains_name(m) <==> pre.contains_name(m))
            &&& forall|m: Seq<char>|
                m != name && pre.contains_name(m) ==> #[trigger] post.id_of(m) == pre.id_of(m)
        }
    }

    /// An empty registry.
    pub fn new() -> (r: Self)
        ensures
            r.wf(),
            r.count() == 0,
            forall|m: Seq<char>| !r.contains_name(m),
    {
        ComponentGenerator { entries: Vec::new(), current: Id::new(0) }
    }

    /// Return the identity assigned under `name`, assigning the next
    /// free one first if the name is new.
    pub fn generate(&mut self, name: &str) -> (r: ComponentId)
        requires
            old(self).wf(),
            old(self).count() < u64::MAX,
        ensures
            final(self).wf(),
            Self::generate_post(*old(self), *final(self), name@, r@),
    {
        let owned: String = name.to_owned();
        let n = self.entries.len();
        let mut k: usize = 0;
        while k < n
            invariant
                n == self.entries@.len(),
                k <= n,
                owned@ == name@,
                forall|j: int| 0 <= j < k ==> #[trigger] self.entries@[j].0@ != name@,
                *self == *old(self),
                old(self).wf(),
            decreases n - k,
        {
            if self.entries[k].0 == owned {
                proof {
                    self.lemma_entry_determines_id(name@, k as int);
                }
                return self.entries[k].1;
            }
            k += 1;
        }
        proof {
            assert(!self.contains_name(name@));
        }
        let next = self.current.add(Id::new(1));
        self.current = next;
        let cid = ComponentId(next);
        self.entries.push((owned, cid));
        proof {
            assert(self.entries@[n as int].0@ == name@);
            assert forall|k1: int, k2: int|
                #![trigger self.entries@[k1], self.entries@[k2]]
                0 <= k1 < k2 < self.entries@.len() implies self.entries@[k1].0@
                != self.entries@[k2].0@ by {
                if k2 < n {
                    assert(old(self).entries@[k1] == self.entries@[k1]);
                    assert(old(self).entries@[k2] == self.entries@[k2]);
                } else {
                    assert(self.entries@[k1].0@ != name@);
                }
            }
            assert(self.wf());
            self.lemma_entry_determines_id(name@, n as int);
            assert forall|m: Seq<char>| m != name@ implies (#[trigger] self.contains_name(m)
                <==> old(self).contains_name(m)) by {
                if self.contains_name(m) {
                    let j = choose|j: int|
                        0 <= j < self.entries@.len() && self.entries@[j].0@ == m;
                    assert(j < n);
                    assert(old(self).entries@[j].0@ == m);
                }
                if old(self).contains_name(m) {
                    let j = choose|j: int|
                        0 <= j < old(self).entries@.len() && old(self).entries@[j].0@ == m;
                    assert(self.entries@[j].0@ == m);
                }
            }
            assert forall|m: Seq<char>| m != name@ && old(self).contains_name(m) implies #[trigger] self.id_of(
                m,
            ) == old(self).id_of(m) by {
                let j = choose|j: int|
                    0 <= j < old(self).entries@.len() && old(self).entries@[j].0@ == m;
                assert(self.entries@[j].0@ == m);
                self.lemma_entry_determines_id(m, j);
                old(self).lemma_entry_determines_id(m, j);
            }
        }
        cid
    }

    /// An entry whose name matches is the registry's one entry for that
    /// name, so it determines the name's identity.
    proof fn lemma_entry_determines_id(self, name: Seq<char>, k: int)
        requires
            self.wf(),
            0 <= k < self.entries@.len(),
            self.entries@[k].0@ == name,
        ensures
            self.contains_name(name),
            self.index_of(name) == k,
            self.id_of(name) == self.entries@[k].1@,
            self.id_of(name) == k + 1,
    {
        assert(self.contains_name(name));
        let j = self.index_of(name);
        assert(0 <= j < self.entries@.len() && self.entries@[j].0@ == name);
        if j < k {
            assert(self.entries@[j].0@ != self.entries@[k].0@);
        } else if k < j {
            assert(self.entries@[k].0@ != self.entries@[j].0@);
        }
    }
}

/// A component identity is nothing but its raw value: identities with
/// equal raw values are the same identity.
pub proof fn lemma_component_id_injective(a: ComponentId, b: ComponentId)
    requires
        a@ == b@,
    ensures
        a == b,
{
}

/// Component identity stability, one half: a name referenced twice
/// yields the same identity, even with a registration of some other
/// name in between the two references.
pub proof fn lemma_component_identity_stable(
    g0: ComponentGenerator,
    g1: ComponentGenerator,
    g2: ComponentGenerator,
    g3: ComponentGenerator,
    name: Seq<char>,
    other: Seq<char>,
    r1: u64,
    rm: u64,
    r2: u64,
)
    requires
        ComponentGenerator::generate_post(g0, g1, name, r1),
        ComponentGenerator::generate_post(g1, g2, other, rm),
        other != name,
        ComponentGenerator::generate_post(g2, g3, name, r2),
    ensures
        r2 == r1,
{
}

/// Component identity stability, the other half: two distinct names
/// never share an identity.
pub proof fn lemma_component_identity_distinct(
    g: ComponentGenerator,
    n1: Seq<char>,
    n2: Seq<char>,
)
    requires
        g.wf(),
        g.contains_name(n1),
        g.contains_name(n2),
        n1 != n2,
    ensures
        g.id_of(n1) != g.id_of(n2),
{
    let k1 = choose|k: int| 0 <= k < g.entries@.len() && g.entries@[k].0@ == n1;
    let k2 = choose|k: int| 0 <= k < g.entries@.len() && g.entries@[k].0@ == n2;
    g.lemma_entry_determines_id(n1, k1);
    g.lemma_entry_determines_id(n2, k2);
}

} // verus!
