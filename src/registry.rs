//! The connection registry: which destinations are reachable right now.
use vstd::prelude::*;

verus! {

/// Why a registration was refused.
#[derive(Debug, Clone, Copy, PartialEq, Eq, Structural)]
pub enum RegistryError {
    /// The identifier already names a live connection.
    AlreadyConnected,
}

/// What `register(id, _)` answers on a registry whose contents are `m`.
pub open spec fn register_outcome<H>(m: Map<Seq<char>, H>, id: Seq<char>) -> Result<(), RegistryError> {
    if m.contains_key(id) {
        Err(RegistryError::AlreadyConnected)
    } else {
        Ok(())
    }
}

/// The contents after `register(id, h)` on a registry whose contents are `m`:
/// a present identifier is never replaced.
pub open spec fn after_register<H>(m: Map<Seq<char>, H>, id: Seq<char>, h: H) -> Map<Seq<char>, H> {
    if m.contains_key(id) {
        m
    } else {
        m.insert(id, h)
    }
}

/// The contents after `unregister(id)`; removing an absent identifier changes nothing.
pub open spec fn after_unregister<H>(m: Map<Seq<char>, H>, id: Seq<char>) -> Map<Seq<char>, H> {
    m.remove(id)
}

/// A second registration of an identifier, with no removal in between, is
/// refused with `AlreadyConnected` and leaves the registry as the first one
/// left it; where the first one succeeded, the identifier still maps to its
/// handle.
pub proof fn lemma_second_register_refused<H>(m: Map<Seq<char>, H>, id: Seq<char>, h1: H, h2: H)
    ensures
        register_outcome(after_register(m, id, h1), id) == Err::<(), RegistryError>(
            RegistryError::AlreadyConnected,
        ),
        after_register(after_register(m, id, h1), id, h2) == after_register(m, id, h1),
        register_outcome(m, id) is Ok ==> after_register(after_register(m, id, h1), id, h2)[id]
            == h1,
{
}

/// Registering an identifier and removing it at once leaves it unregistered,
/// so a lookup of it finds nothing.
pub proof fn lemma_unregister_after_register<H>(m: Map<Seq<char>, H>, id: Seq<char>, h: H)
    ensures
        !after_unregister(after_register(m, id, h), id).contains_key(id),
{
}

/// A mapping from destination identifier to connection handle. At most one
/// handle is held per identifier, and identifiers keep the order in which
/// they were registered.
pub struct Registry<H> {
    entries: Vec<(String, H)>,
}

impl<H> View for Registry<H> {
    type V = Map<Seq<char>, H>;

    closed spec fn view(&self) -> Map<Seq<char>, H> {
        Map::new(|k: Seq<char>| self.ids().contains(k), |k: Seq<char>| self.entries@[self.slot(k)].1)
    }
}

impl<H> Registry<H> {
    /// The registered identifiers, oldest registration first.
    pub closed spec fn ids(&self) -> Seq<Seq<char>> {
        self.entries@.map_values(|e: (String, H)| e.0@)
    }

    spec fn slot(&self, k: Seq<char>) -> int {
        choose|i: int| 0 <= i < self.entries@.len() && self.entries@[i].0@ == k
    }

    /// No identifier is held twice.
    pub closed spec fn wf(&self) -> bool {
        self.ids().no_duplicates()
    }

    proof fn lemma_slot(&self, i: int)
        requires
            self.wf(),
            0 <= i < self.entries@.len(),
        ensures
            self.slot(self.entries@[i].0@) == i,
            self.ids()[i] == self.entries@[i].0@,
    {
        let k = self.entries@[i].0@;
        assert(self.ids()[i] == k);
        let j = self.slot(k);
        assert(self.ids()[j] == k);
    }

    proof fn lemma_entry_in_view(&self, i: int)
        requires
            self.wf(),
            0 <= i < self.entries@.len(),
        ensures
            self@.contains_key(self.entries@[i].0@),
            self@[self.entries@[i].0@] == self.entries@[i].1,
    {
        self.lemma_slot(i);
    }

    proof fn lemma_key_slot(&self, k: Seq<char>)
        requires
            self.ids().contains(k),
        ensures
            0 <= self.slot(k) < self.entries@.len(),
            self.entries@[self.slot(k)].0@ == k,
    {
        let j = choose|j: int| 0 <= j < self.ids().len() && self.ids()[j] == k;
        assert(self.entries@[j].0@ == k);
    }

    /// Every registered identifier, and only those, appears in `ids`.
    pub proof fn lemma_ids_are_domain(&self)
        requires
            self.wf(),
        ensures
            forall|k: Seq<char>| #[trigger] self@.contains_key(k) <==> self.ids().contains(k),
            self.ids().len() == self@.dom().len(),
    {
        let ids = self.ids();
        assert(self@.dom() =~= ids.to_set());
        ids.unique_seq_to_set();
    }

    /// An empty registry.
    pub fn new() -> (r: Self)
        ensures
            r.wf(),
            r@ == Map::<Seq<char>, H>::empty(),
            r.ids() == Seq::<Seq<char>>::empty(),
    {
        let r = Registry { entries: Vec::new() };
        assert(r.ids() =~= Seq::<Seq<char>>::empty());
        assert(r@ =~= Map::<Seq<char>, H>::empty());
        r
    }

    /// Claims `id` for `handle`, checking absence and inserting in one step.
    /// A present identifier is refused and keeps its handle.
    pub fn register(&mut self, id: String, handle: H) -> (r: Result<(), RegistryError>)
        requires
            old(self).wf(),
        ensures
            final(self).wf(),
            r == register_outcome(old(self)@, id@),
            final(self)@ == after_register(old(self)@, id@, handle),
            final(self).ids() == if old(self)@.contains_key(id@) {
                old(self).ids()
            } else {
                old(self).ids().push(id@)
            },
    {
        proof {
            self.lemma_ids_are_domain();
        }
        match self.position(&id) {
            Some(_) => Err(RegistryError::AlreadyConnected),
            None => {
                let ghost before = *self;
                let ghost key = id@;
                self.entries.push((id, handle));
                proof {
                    assert(self.ids() =~= before.ids().push(key));
                    assert(self.wf()) by {
                        assert forall|a: int, b: int|
                            0 <= a < self.ids().len() && 0 <= b < self.ids().len() && a != b
                            implies self.ids()[a] != self.ids()[b] by {
                            if a == before.ids().len() {
                                assert(before.ids().contains(self.ids()[b]) ==> self.ids()[b] != key);
                                assert(before.ids()[b] == self.ids()[b]);
                            } else if b == before.ids().len() {
                                assert(before.ids()[a] == self.ids()[a]);
                            }
                        }
                    }
                    assert forall|k: Seq<char>| self@.contains_key(k) <==> #[trigger] before@.insert(key, handle).contains_key(k) by {
                        if before.ids().contains(k) {
                            let j = choose|j: int| 0 <= j < before.ids().len() && before.ids()[j] == k;
                            assert(self.ids()[j] == k);
                        }
                        if k == key {
                            assert(self.ids()[before.ids().len() as int] == k);
                        }
                        if self.ids().contains(k) && k != key {
                            let j = choose|j: int| 0 <= j < self.ids().len() && self.ids()[j] == k;
                            assert(before.ids()[j] == k);
                        }
                    }
                    assert forall|k: Seq<char>| #[trigger] self@.contains_key(k) implies self@[k]
                        == before@.insert(key, handle)[k] by {
                        if k == key {
                            self.lemma_slot(before.entries@.len() as int);
                        } else {
                            before.lemma_key_slot(k);
                            let j = before.slot(k);
                            self.lemma_slot(j);
                        }
                    }
                    assert(self@ =~= before@.insert(key, handle));
                }
                Ok(())
            },
        }
    }

    /// Removes `id` if present; an absent identifier is no error. Answers
    /// whether an entry was removed.
    pub fn unregister(&mut self, id: &String) -> (r: bool)
        requires
            old(self).wf(),
        ensures
            final(self).wf(),
            r == old(self)@.contains_key(id@),
            final(self)@ == after_unregister(old(self)@, id@),
    {
        proof {
            self.lemma_ids_are_domain();
        }
        match self.position(id) {
            None => {
                assert(self@ =~= self@.remove(id@));
                false
            },
            Some(i) => {
                let ghost before = *self;
                let ghost key = id@;
                let ghost n = before.entries@.len();
                self.entries.remove(i);
                proof {
                    assert(self.ids() =~= before.ids().remove(i as int));
                    assert forall|j: int| 0 <= j < self.ids().len() implies #[trigger] self.ids()[j]
                        == before.ids()[if j < i { j } else { j + 1 }] by {}
                    assert(self.wf()) by {
                        assert forall|a: int, b: int|
                            0 <= a < self.ids().len() && 0 <= b < self.ids().len() && a != b
                            implies self.ids()[a] != self.ids()[b] by {
                            assert(self.ids()[a] == before.ids()[if a < i { a } else { a + 1 }]);
                            assert(self.ids()[b] == before.ids()[if b < i { b } else { b + 1 }]);
                        }
                    }
                    assert(before.ids()[i as int] == key);
                    assert forall|k: Seq<char>| self@.contains_key(k) <==> #[trigger] before@.remove(key).contains_key(k) by {
                        if self.ids().contains(k) {
                            let j = choose|j: int| 0 <= j < self.ids().len() && self.ids()[j] == k;
                            let oj = if j < i { j } else { j + 1 };
                            assert(before.ids()[oj] == k);
                            assert(k != key);
                        }
                        if before.ids().contains(k) && k != key {
                            before.lemma_key_slot(k);
                            let oj = before.slot(k);
                            assert(before.ids()[oj] == k);
                            assert(oj != i);
                            let j = if oj < i { oj } else { oj - 1 };
                            assert(self.ids()[j] == k);
                        }
                    }
                    assert forall|k: Seq<char>| #[trigger] self@.contains_key(k) implies self@[k]
                        == before@[k] by {
                        self.lemma_key_slot(k);
                        let j = self.slot(k);
                        let oj = if j < i { j } else { j + 1 };
                        assert(self.entries@[j] == before.entries@[oj]);
                        before.lemma_slot(oj);
                    }
                    assert(self@ =~= before@.remove(key));
                }
                true
            },
        }
    }

    /// The handle registered under `id`, if any.
    pub fn lookup(&self, id: &String) -> (r: Option<&H>)
        requires
            self.wf(),
        ensures
            r is Some <==> self@.contains_key(id@),
            r matches Some(h) ==> *h == self@[id@],
    {
        proof {
            self.lemma_ids_are_domain();
        }
        match self.position(id) {
            None => None,
            Some(i) => {
                proof {
                    self.lemma_entry_in_view(i as int);
                }
                Some(&self.entries[i].1)
            },
        }
    }

    /// A snapshot of the registered identifiers, oldest registration first.
    pub fn list(&self) -> (r: Vec<String>)
        requires
            self.wf(),
        ensures
            r@.map_values(|s: String| s@) == self.ids(),
    {
        let mut out: Vec<String> = Vec::new();
        let mut i: usize = 0;
        while i < self.entries.len()
            invariant
                i <= self.entries@.len(),
                out@.len() == i,
                forall|j: int| 0 <= j < i ==> #[trigger] out@[j]@ == self.entries@[j].0@,
            decreases self.entries@.len() - i,
        {
            out.push(self.entries[i].0.clone());
            i = i + 1;
        }
        assert(out@.map_values(|s: String| s@) =~= self.ids());
        out
    }

    /// Where `id` stands in the entries, if it is registered.
    fn position(&self, id: &String) -> (r: Option<usize>)
        requires
            self.wf(),
        ensures
            r is None <==> !self.ids().contains(id@),
            r matches Some(i) ==> i < self.entries@.len() && self.entries@[i as int].0@ == id@,
    {
        let mut i: usize = 0;
        while i < self.entries.len()
            invariant
                i <= self.entries@.len(),
                forall|j: int| 0 <= j < i ==> self.entries@[j].0@ != id@,
            decreases self.entries@.len() - i,
        {
            if self.entries[i].0 == *id {
                assert(self.ids()[i as int] == id@);
                return Some(i);
            }
            i = i + 1;
        }
        assert(!self.ids().contains(id@)) by {
            if self.ids().contains(id@) {
                let j = choose|j: int| 0 <= j < self.ids().len() && self.ids()[j] == id@;
                assert(self.entries@[j].0@ == id@);
            }
        }
        None
    }
}

} // verus!
