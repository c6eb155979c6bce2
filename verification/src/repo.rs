//! The per-entity-kind repository: the storage contract every entity kind is
//! cached through.
//!
//! A repository stores entities of one kind, each under its identifier. Its
//! abstract state is a finite map from identifier to entity; the operations
//! are `get`, `upsert`, `upsert_bulk` and `remove`, plus relationship
//! listings (`ids_of_parent`) and the cascade built on them (`remove_parent`)
//! for kinds that hang off a parent entity.
//!
//! Operations never fail: this backend keeps everything in memory.

use vstd::prelude::*;
use vstd::seq_lib::group_seq_properties;

verus! {

broadcast use group_seq_properties;

/// A cached entity kind: a value with an identifier of its own.
pub trait Entity: Sized + Copy {
    /// The identifier type: unique per stored entity.
    type Id: Copy;

    /// The identifier of this entity.
    spec fn eid(self) -> Self::Id;

    /// Returns the identifier of this entity.
    fn id(self) -> (r: Self::Id)
        ensures
            r == self.eid(),
    ;

    /// Decides equality of two identifiers.
    fn id_eq(a: Self::Id, b: Self::Id) -> (r: bool)
        ensures
            r == (a == b),
    ;
}

/// An entity kind that hangs off a parent entity (a guild's member, a
/// message's attachment): removal of the parent cascades over these.
pub trait Child: Entity {
    /// The identifier of the parent this entity belongs to.
    spec fn parent_of(self) -> u64;

    /// Returns the identifier of the parent this entity belongs to.
    fn parent(self) -> (r: u64)
        ensures
            r == self.parent_of(),
    ;
}

/// The abstract state of a sequence of stored entities: the map from each
/// entity's identifier to the entity, later entries winning.
spec fn seq_map<E: Entity>(s: Seq<E>) -> Map<E::Id, E>
    decreases s.len(),
{
    if s.len() == 0 {
        Map::empty()
    } else {
        seq_map(s.drop_last()).insert(s.last().eid(), s.last())
    }
}

/// Whether no two entries of `s` share an identifier.
spec fn unique_ids<E: Entity>(s: Seq<E>) -> bool {
    forall|i: int, j: int|
        0 <= i < s.len() && 0 <= j < s.len() && i != j ==> s[i].eid() != s[j].eid()
}

/// The stored value under `id`, or nothing: what `get` returns.
pub open spec fn lookup<E: Entity>(m: Map<E::Id, E>, id: E::Id) -> Option<E> {
    if m.contains_key(id) {
        Some(m[id])
    } else {
        None
    }
}

/// The map after a batch of upserts, applied first to last.
pub open spec fn upsert_all<E: Entity>(m: Map<E::Id, E>, s: Seq<E>) -> Map<E::Id, E>
    decreases s.len(),
{
    if s.len() == 0 {
        m
    } else {
        upsert_all(m, s.drop_last()).insert(s.last().eid(), s.last())
    }
}

/// The map with every entity of parent `p` removed: the effect of a cascade.
pub open spec fn purge<E: Child>(m: Map<E::Id, E>, p: u64) -> Map<E::Id, E> {
    Map::<E::Id, E>::new(
        |k: E::Id| m.dom().contains(k) && m[k].parent_of() != p,
        |k: E::Id| m[k],
    )
}

/// The storage contract any backend implements once per entity kind: the
/// interface the projection engine is written against. The abstract state
/// of a store is a map from identifier to entity; every operation says
/// exactly what it leaves in that map.
///
/// A deliberate narrowing: operations here are total, so only a backend
/// that cannot fail can implement this contract. A storage engine with its
/// own failure kind (I/O, serialization) would widen each operation to a
/// fallible result, propagated opaquely by the projector, which would then
/// abort the rest of its event on the first failure without rolling back
/// calls already applied; no such engine is part of this crate, so those
/// failure paths have no stated contract.
pub trait Repository<E: Entity>: Sized {
    /// The abstract contents: each stored entity under its identifier.
    spec fn contents(&self) -> Map<E::Id, E>;

    /// Well-formedness of the store.
    spec fn wf(&self) -> bool;

    /// Returns the stored entity under `id`, or nothing; absence is not an
    /// error.
    fn get(&self, id: E::Id) -> (r: Option<E>)
        requires
            self.wf(),
        ensures
            r == lookup(self.contents(), id),
            (match r {
                Some(e) => e.eid() == id,
                None => true,
            }),
    ;

    /// Inserts or replaces the entity under its identifier, idempotently.
    fn upsert(&mut self, e: E)
        requires
            old(self).wf(),
        ensures
            final(self).wf(),
            final(self).contents() == old(self).contents().insert(e.eid(), e),
    ;

    /// Inserts or replaces a batch, first to last; elements are independent
    /// records, so nothing may depend on the order of application.
    fn upsert_bulk(&mut self, batch: &Vec<E>)
        requires
            old(self).wf(),
        ensures
            final(self).wf(),
            final(self).contents() == upsert_all(old(self).contents(), batch@),
    ;

    /// Removes the entity under `id`; removing an absent identifier is a
    /// no-op, not an error.
    fn remove(&mut self, id: E::Id)
        requires
            old(self).wf(),
        ensures
            final(self).wf(),
            final(self).contents() == old(self).contents().remove(id),
    ;
}

/// The extra contract of a store whose entity kind hangs off a parent:
/// the relationship listing, and the cascade a structural delete of the
/// parent runs.
pub trait CascadeRepository<E: Child>: Repository<E> {
    /// Lists the identifiers of every stored entity belonging to parent
    /// `p`, each once.
    fn ids_of_parent(&self, p: u64) -> (r: Vec<E::Id>)
        requires
            self.wf(),
        ensures
            forall|n: int|
                0 <= n < r@.len() ==> self.contents().contains_key(#[trigger] r@[n])
                    && self.contents()[r@[n]].parent_of() == p,
            forall|k: E::Id|
                self.contents().contains_key(k) && self.contents()[k].parent_of() == p
                    ==> r@.contains(k),
            forall|n1: int, n2: int| 0 <= n1 < n2 < r@.len() ==> r@[n1] != r@[n2],
    ;

    /// Removes every stored entity belonging to parent `p`.
    fn remove_parent(&mut self, p: u64)
        requires
            old(self).wf(),
        ensures
            final(self).wf(),
            final(self).contents() == purge(old(self).contents(), p),
    ;
}

/// A key of the abstract map is the identifier of some stored entry.
proof fn lemma_seq_map_sound<E: Entity>(s: Seq<E>, k: E::Id)
    requires
        seq_map(s).contains_key(k),
    ensures
        exists|i: int| 0 <= i < s.len() && #[trigger] s[i].eid() == k,
    decreases s.len(),
{
    if s.len() > 0 {
        if s.last().eid() == k {
            assert(s[s.len() - 1].eid() == k);
        } else {
            lemma_seq_map_sound(s.drop_last(), k);
            let i = choose|i: int|
                0 <= i < s.drop_last().len() && #[trigger] s.drop_last()[i].eid() == k;
            assert(s[i].eid() == k);
        }
    }
}

/// Every stored entry stands in the abstract map under its identifier.
proof fn lemma_seq_map_complete<E: Entity>(s: Seq<E>, i: int)
    requires
        unique_ids(s),
        0 <= i < s.len(),
    ensures
        seq_map(s).contains_key(s[i].eid()),
        seq_map(s)[s[i].eid()] == s[i],
    decreases s.len(),
{
    if i == s.len() - 1 {
        assert(s.last() == s[i]);
    } else {
        lemma_unique_drop_last(s);
        assert(s.drop_last()[i] == s[i]);
        lemma_seq_map_complete(s.drop_last(), i);
        assert(s[i].eid() != s.last().eid());
    }
}

proof fn lemma_unique_drop_last<E: Entity>(s: Seq<E>)
    requires
        unique_ids(s),
        s.len() > 0,
    ensures
        unique_ids(s.drop_last()),
{
    assert forall|i: int, j: int|
        0 <= i < s.drop_last().len() && 0 <= j < s.drop_last().len() && i != j implies s.drop_last()[i].eid()
        != s.drop_last()[j].eid() by {
        assert(s.drop_last()[i] == s[i]);
        assert(s.drop_last()[j] == s[j]);
    }
}

/// Under unique identifiers the table and its abstract map have one entry
/// for one entry.
proof fn lemma_seq_map_len<E: Entity>(s: Seq<E>)
    requires
        unique_ids(s),
    ensures
        seq_map(s).dom().finite(),
        seq_map(s).dom().len() == s.len(),
    decreases s.len(),
{
    if s.len() > 0 {
        lemma_unique_drop_last(s);
        lemma_seq_map_len(s.drop_last());
        if seq_map(s.drop_last()).contains_key(s.last().eid()) {
            lemma_seq_map_sound(s.drop_last(), s.last().eid());
            let i = choose|i: int|
                0 <= i < s.drop_last().len() && #[trigger] s.drop_last()[i].eid()
                    == s.last().eid();
            assert(s[i].eid() == s[s.len() - 1].eid());
            assert(false);
        }
    }
}

/// Removing the entry at `i` removes exactly its key from the abstract map.
proof fn lemma_seq_map_remove_at<E: Entity>(s: Seq<E>, i: int)
    requires
        unique_ids(s),
        0 <= i < s.len(),
    ensures
        seq_map(s.remove(i)) == seq_map(s).remove(s[i].eid()),
        unique_ids(s.remove(i)),
    decreases s.len(),
{
    assert forall|a: int, b: int|
        0 <= a < s.remove(i).len() && 0 <= b < s.remove(i).len() && a != b implies s.remove(
        i,
    )[a].eid() != s.remove(i)[b].eid() by {
        let a0 = if a < i {
            a
        } else {
            a + 1
        };
        let b0 = if b < i {
            b
        } else {
            b + 1
        };
        assert(s.remove(i)[a] == s[a0]);
        assert(s.remove(i)[b] == s[b0]);
    }
    if i == s.len() - 1 {
        assert(s.remove(i) =~= s.drop_last());
        if seq_map(s.drop_last()).contains_key(s.last().eid()) {
            lemma_seq_map_sound(s.drop_last(), s.last().eid());
            let j = choose|j: int|
                0 <= j < s.drop_last().len() && #[trigger] s.drop_last()[j].eid()
                    == s.last().eid();
            assert(s[j].eid() == s[s.len() - 1].eid());
            assert(false);
        }
        assert(seq_map(s.drop_last()) =~= seq_map(s).remove(s[i].eid()));
    } else {
        lemma_unique_drop_last(s);
        lemma_seq_map_remove_at(s.drop_last(), i);
        assert(s.remove(i).drop_last() =~= s.drop_last().remove(i));
        assert(s.remove(i).last() == s.last());
        assert(seq_map(s.remove(i)) == seq_map(s.drop_last().remove(i)).insert(
            s.last().eid(),
            s.last(),
        ));
        assert(s[i] == s.drop_last()[i]);
        assert(s[i].eid() != s.last().eid());
        assert(seq_map(s.drop_last()).remove(s[i].eid()).insert(s.last().eid(), s.last())
            =~= seq_map(s.drop_last()).insert(s.last().eid(), s.last()).remove(s[i].eid()));
    }
}

/// A repository of one entity kind, backed by an in-memory table.
///
/// Its view is the map from identifier to stored entity; the well-formedness
/// invariant is that no identifier is stored twice.
pub struct Repo<E: Entity> {
    items: Vec<E>,
}

impl<E: Entity> View for Repo<E> {
    type V = Map<E::Id, E>;

    closed spec fn view(&self) -> Map<E::Id, E> {
        seq_map(self.items@)
    }
}

impl<E: Entity> Repo<E> {
    /// Well-formedness: every stored identifier is unique.
    pub closed spec fn inv(&self) -> bool {
        unique_ids(self.items@)
    }

    /// Creates an empty repository.
    pub fn new() -> (r: Self)
        ensures
            r.inv(),
            r@ == Map::<E::Id, E>::empty(),
    {
        Repo { items: Vec::new() }
    }

    /// The index of the entity stored under `id`, if any.
    fn find(&self, id: E::Id) -> (r: Option<usize>)
        ensures
            match r {
                Some(i) => i < self.items@.len() && self.items@[i as int].eid() == id,
                None => forall|j: int| 0 <= j < self.items@.len() ==> self.items@[j].eid() != id,
            },
    {
        let mut i: usize = 0;
        while i < self.items.len()
            invariant
                i <= self.items@.len(),
                forall|j: int| 0 <= j < i ==> self.items@[j].eid() != id,
            decreases self.items@.len() - i,
        {
            if E::id_eq(self.items[i].id(), id) {
                return Some(i);
            }
            i = i + 1;
        }
        None
    }

    /// Returns the stored entity under `id`, or nothing; absence is not an
    /// error.
    pub fn get(&self, id: E::Id) -> (r: Option<E>)
        requires
            self.inv(),
        ensures
            r == lookup(self@, id),
            (match r {
                Some(e) => e.eid() == id,
                None => true,
            }),
    {
        match self.find(id) {
            Some(i) => {
                proof {
                    lemma_seq_map_complete::<E>(self.items@, i as int);
                }
                Some(self.items[i])
            },
            None => {
                proof {
                    if self@.contains_key(id) {
                        lemma_seq_map_sound::<E>(self.items@, id);
                    }
                }
                None
            },
        }
    }

    /// The number of stored entities.
    pub fn len(&self) -> (r: usize)
        requires
            self.inv(),
        ensures
            r == self@.dom().len(),
            self@.dom().finite(),
    {
        proof {
            lemma_seq_map_len::<E>(self.items@);
        }
        self.items.len()
    }

    /// Inserts `e`, replacing whatever was stored under its identifier;
    /// writing the same identifier twice keeps the later value whole.
    pub fn upsert(&mut self, e: E)
        requires
            old(self).inv(),
        ensures
            final(self).inv(),
            final(self)@ == old(self)@.insert(e.eid(), e),
    {
        match self.find(e.id()) {
            Some(i) => {
                proof {
                    lemma_seq_map_remove_at::<E>(self.items@, i as int);
                }
                let ghost k = self.items@[i as int].eid();
                let ghost removed = old(self).items@.remove(i as int);
                self.items.remove(i);
                proof {
                    if seq_map(removed).contains_key(e.eid()) {
                        lemma_seq_map_sound::<E>(removed, e.eid());
                        let j = choose|j: int|
                            0 <= j < removed.len() && #[trigger] removed[j].eid() == e.eid();
                        let j0 = if j < i {
                            j
                        } else {
                            j + 1
                        };
                        assert(removed[j] == old(self).items@[j0]);
                        assert(old(self).items@[j0].eid() == old(self).items@[i as int].eid());
                        assert(false);
                    }
                }
                self.items.push(e);
                proof {
                    assert(self.items@.drop_last() =~= removed);
                    assert forall|a: int, b: int|
                        0 <= a < self.items@.len() && 0 <= b < self.items@.len() && a
                            != b implies self.items@[a].eid() != self.items@[b].eid() by {
                        if a < self.items@.len() - 1 && b < self.items@.len() - 1 {
                            assert(self.items@[a] == removed[a]);
                            assert(self.items@[b] == removed[b]);
                        }
                    }
                    assert(final(self)@ == seq_map(removed).insert(e.eid(), e));
                    assert(seq_map(removed).insert(e.eid(), e) =~= old(self)@.insert(e.eid(), e));
                }
            },
            None => {
                proof {
                    if self@.contains_key(e.eid()) {
                        lemma_seq_map_sound::<E>(self.items@, e.eid());
                    }
                }
                self.items.push(e);
                proof {
                    assert(self.items@.drop_last() =~= old(self).items@);
                    assert forall|a: int, b: int|
                        0 <= a < self.items@.len() && 0 <= b < self.items@.len() && a
                            != b implies self.items@[a].eid() != self.items@[b].eid() by {
                        if a < self.items@.len() - 1 && b < self.items@.len() - 1 {
                            assert(self.items@[a] == old(self).items@[a]);
                            assert(self.items@[b] == old(self).items@[b]);
                        } else {
                            let c = if a < self.items@.len() - 1 {
                                a
                            } else {
                                b
                            };
                            assert(self.items@[c] == old(self).items@[c]);
                            if old(self)@.contains_key(old(self).items@[c].eid()) {
                            }
                            lemma_seq_map_complete::<E>(old(self).items@, c);
                        }
                    }
                }
            },
        }
    }

    /// Inserts or replaces a batch, first to last; elements are independent
    /// records, so nothing may depend on the order of application.
    pub fn upsert_bulk(&mut self, batch: &Vec<E>)
        requires
            old(self).inv(),
        ensures
            final(self).inv(),
            final(self)@ == upsert_all(old(self)@, batch@),
    {
        let mut i: usize = 0;
        while i < batch.len()
            invariant
                old(self).inv(),
                self.inv(),
                i <= batch@.len(),
                self@ == upsert_all(old(self)@, batch@.take(i as int)),
            decreases batch@.len() - i,
        {
            self.upsert(batch[i]);
            proof {
                assert(batch@.take(i + 1).drop_last() =~= batch@.take(i as int));
                assert(batch@.take(i + 1).last() == batch@[i as int]);
            }
            i = i + 1;
        }
        proof {
            assert(batch@.take(batch@.len() as int) =~= batch@);
        }
    }

    /// Removes the entity under `id`; removing an absent identifier is a
    /// no-op, not an error.
    pub fn remove(&mut self, id: E::Id)
        requires
            old(self).inv(),
        ensures
            final(self).inv(),
            final(self)@ == old(self)@.remove(id),
    {
        match self.find(id) {
            Some(i) => {
                proof {
                    lemma_seq_map_remove_at::<E>(self.items@, i as int);
                }
                self.items.remove(i);
            },
            None => {
                proof {
                    if self@.contains_key(id) {
                        lemma_seq_map_sound::<E>(self.items@, id);
                    }
                    assert(final(self)@ =~= old(self)@.remove(id));
                }
            },
        }
    }
}

impl<E: Child> Repo<E> {
    /// Lists the identifiers of every stored entity belonging to parent `p`,
    /// each once: the relationship listing that drives a cascade.
    pub fn ids_of_parent(&self, p: u64) -> (r: Vec<E::Id>)
        requires
            self.inv(),
        ensures
            forall|n: int|
                0 <= n < r@.len() ==> self@.contains_key(#[trigger] r@[n])
                    && self@[r@[n]].parent_of() == p,
            forall|k: E::Id| self@.contains_key(k) && self@[k].parent_of() == p ==> r@.contains(k),
            forall|n1: int, n2: int| 0 <= n1 < n2 < r@.len() ==> r@[n1] != r@[n2],
    {
        let mut r: Vec<E::Id> = Vec::new();
        let mut i: usize = 0;
        while i < self.items.len()
            invariant
                self.inv(),
                i <= self.items@.len(),
                forall|n: int|
                    0 <= n < r@.len() ==> self@.contains_key(#[trigger] r@[n])
                        && self@[r@[n]].parent_of() == p,
                forall|j: int|
                    0 <= j < i && self.items@[j].parent_of() == p ==> r@.contains(
                        #[trigger] self.items@[j].eid(),
                    ),
                forall|n: int|
                    0 <= n < r@.len() ==> exists|j: int|
                        0 <= j < i && #[trigger] r@[n] == self.items@[j].eid(),
                forall|n1: int, n2: int| 0 <= n1 < n2 < r@.len() ==> r@[n1] != r@[n2],
            decreases self.items@.len() - i,
        {
            if self.items[i].parent() == p {
                proof {
                    lemma_seq_map_complete::<E>(self.items@, i as int);
                }
                let ghost prior = r@;
                r.push(self.items[i].id());
                proof {
                    assert forall|n: int| 0 <= n < r@.len() implies self@.contains_key(
                        #[trigger] r@[n],
                    ) && self@[r@[n]].parent_of() == p by {
                        if n < prior.len() {
                            assert(r@[n] == prior[n]);
                        } else {
                            assert(r@[n] == self.items@[i as int].eid());
                        }
                    }
                    assert forall|j: int|
                        0 <= j < i + 1 && self.items@[j].parent_of() == p implies r@.contains(
                        #[trigger] self.items@[j].eid(),
                    ) by {
                        if j < i {
                            assert(prior.contains(self.items@[j].eid()));
                            assert(r@ == prior.push(self.items@[i as int].eid()));
                        } else {
                            assert(r@[r@.len() - 1] == self.items@[j].eid());
                        }
                    }
                    assert forall|n: int| 0 <= n < r@.len() implies exists|j: int|
                        0 <= j < i + 1 && #[trigger] r@[n] == self.items@[j].eid() by {
                        if n < prior.len() {
                            assert(r@[n] == prior[n]);
                            let j = choose|j: int|
                                0 <= j < i && #[trigger] prior[n] == self.items@[j].eid();
                            assert(r@[n] == self.items@[j].eid());
                        } else {
                            assert(r@[n] == self.items@[i as int].eid());
                        }
                    }
                    assert forall|n1: int, n2: int|
                        0 <= n1 < n2 < r@.len() implies r@[n1] != r@[n2] by {
                        if n2 == r@.len() - 1 {
                            assert(r@[n1] == prior[n1]);
                            let j = choose|j: int|
                                0 <= j < i && #[trigger] prior[n1] == self.items@[j].eid();
                            assert(r@[n2] == self.items@[i as int].eid());
                            assert(self.items@[j].eid() != self.items@[i as int].eid());
                        } else {
                            assert(r@[n1] == prior[n1]);
                            assert(r@[n2] == prior[n2]);
                        }
                    }
                }
            }
            i = i + 1;
        }
        proof {
            assert forall|k: E::Id|
                self@.contains_key(k) && self@[k].parent_of() == p implies r@.contains(k) by {
                lemma_seq_map_sound::<E>(self.items@, k);
                let j = choose|j: int|
                    0 <= j < self.items@.len() && #[trigger] self.items@[j].eid() == k;
                lemma_seq_map_complete::<E>(self.items@, j);
            }
        }
        r
    }

    /// Removes every stored entity belonging to parent `p`: the cascade that
    /// a structural delete of the parent runs, driven by `ids_of_parent`.
    pub fn remove_parent(&mut self, p: u64)
        requires
            old(self).inv(),
        ensures
            final(self).inv(),
            final(self)@ == purge(old(self)@, p),
    {
        let ids = self.ids_of_parent(p);
        let ghost m0 = self@;
        let mut n: usize = 0;
        while n < ids.len()
            invariant
                self.inv(),
                n <= ids@.len(),
                forall|k: E::Id|
                    #[trigger] self@.contains_key(k) <==> m0.contains_key(k) && !ids@.take(
                        n as int,
                    ).contains(k),
                forall|k: E::Id| #[trigger] self@.contains_key(k) ==> self@[k] == m0[k],
                forall|i: int|
                    0 <= i < ids@.len() ==> m0.contains_key(#[trigger] ids@[i])
                        && m0[ids@[i]].parent_of() == p,
                forall|k: E::Id| m0.contains_key(k) && m0[k].parent_of() == p ==> ids@.contains(k),
            decreases ids@.len() - n,
        {
            self.remove(ids[n]);
            proof {
                assert(ids@.take(n + 1) =~= ids@.take(n as int).push(ids@[n as int]));
            }
            n = n + 1;
        }
        proof {
            assert(ids@.take(ids@.len() as int) =~= ids@);
            assert(final(self)@ =~= purge(m0, p));
        }
    }
}

impl<E: Entity> Repository<E> for Repo<E> {
    open spec fn contents(&self) -> Map<E::Id, E> {
        self@
    }

    open spec fn wf(&self) -> bool {
        self.inv()
    }

    fn get(&self, id: E::Id) -> (r: Option<E>) {
        Repo::get(self, id)
    }

    fn upsert(&mut self, e: E) {
        Repo::upsert(self, e);
    }

    fn upsert_bulk(&mut self, batch: &Vec<E>) {
        Repo::upsert_bulk(self, batch);
    }

    fn remove(&mut self, id: E::Id) {
        Repo::remove(self, id);
    }
}

impl<E: Child> CascadeRepository<E> for Repo<E> {
    fn ids_of_parent(&self, p: u64) -> (r: Vec<E::Id>) {
        Repo::ids_of_parent(self, p)
    }

    fn remove_parent(&mut self, p: u64) {
        Repo::remove_parent(self, p);
    }
}

} // verus!
