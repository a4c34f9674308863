use std::collections::HashMap;
use vstd::prelude::*;

use crate::celestial_body::{body_id, standard_bodies_spec, CelestialBody};
use crate::error::CoreError;

verus! {

/// No two bodies of the sequence share an identifier.
pub open spec fn unique_ids(s: Seq<CelestialBody>) -> bool {
    forall|i: int, j: int|
        0 <= i < s.len() && 0 <= j < s.len() && i != j ==> body_id(s[i]) != body_id(s[j])
}

/// Some body of the sequence has the identifier.
pub open spec fn has_id(s: Seq<CelestialBody>, id: Seq<char>) -> bool {
    exists|i: int| 0 <= i < s.len() && body_id(s[i]) == id
}

/// The position of a body with the identifier, where there is one.
pub open spec fn index_of(s: Seq<CelestialBody>, id: Seq<char>) -> int {
    choose|i: int| 0 <= i < s.len() && body_id(s[i]) == id
}

/// The body kept under an identifier.
pub open spec fn lookup(s: Seq<CelestialBody>, id: Seq<char>) -> Option<CelestialBody> {
    if has_id(s, id) {
        Some(s[index_of(s, id)])
    } else {
        None
    }
}

/// The catalog after loading a body: it replaces the body with the same
/// identifier in place, or else joins the end.
pub open spec fn loaded(s: Seq<CelestialBody>, b: CelestialBody) -> Seq<CelestialBody> {
    if has_id(s, body_id(b)) {
        s.update(index_of(s, body_id(b)), b)
    } else {
        s.push(b)
    }
}

/// The catalog after loading each body of `bs` in turn.
pub open spec fn loaded_all(s: Seq<CelestialBody>, bs: Seq<CelestialBody>) -> Seq<CelestialBody>
    decreases bs.len(),
{
    if bs.len() == 0 {
        s
    } else {
        loaded(loaded_all(s, bs.drop_last()), bs.last())
    }
}

/// In a catalog with unique identifiers, the body at position `i` is the one
/// that its identifier finds.
pub proof fn lemma_index_of_unique(s: Seq<CelestialBody>, i: int)
    requires
        unique_ids(s),
        0 <= i < s.len(),
    ensures
        has_id(s, body_id(s[i])),
        index_of(s, body_id(s[i])) == i,
        lookup(s, body_id(s[i])) == Some(s[i]),
{
    assert(0 <= i < s.len() && body_id(s[i]) == body_id(s[i]));
}

/// Loading keeps identifiers unique.
pub proof fn lemma_loaded_unique(s: Seq<CelestialBody>, b: CelestialBody)
    requires
        unique_ids(s),
    ensures
        unique_ids(loaded(s, b)),
{
    let t = loaded(s, b);
    if has_id(s, body_id(b)) {
        let k = index_of(s, body_id(b));
        assert forall|i: int, j: int|
            0 <= i < t.len() && 0 <= j < t.len() && i != j implies body_id(t[i]) != body_id(t[j]) by {
            if i != k && j != k {
                assert(t[i] == s[i] && t[j] == s[j]);
            } else if i == k {
                assert(t[j] == s[j]);
            } else {
                assert(t[i] == s[i]);
            }
        }
    } else {
        assert forall|i: int, j: int|
            0 <= i < t.len() && 0 <= j < t.len() && i != j implies body_id(t[i]) != body_id(t[j]) by {
            if i < s.len() && j < s.len() {
                assert(t[i] == s[i] && t[j] == s[j]);
            } else if i < s.len() {
                assert(t[i] == s[i]);
            } else {
                assert(t[j] == s[j]);
            }
        }
    }
}

/// After a load, the loaded body is found under its identifier and every
/// other identifier finds what it found before.
pub proof fn lemma_loaded_lookup(s: Seq<CelestialBody>, b: CelestialBody, id: Seq<char>)
    requires
        unique_ids(s),
    ensures
        lookup(loaded(s, b), id) == (if id == body_id(b) {
            Some(b)
        } else {
            lookup(s, id)
        }),
{
    let t = loaded(s, b);
    lemma_loaded_unique(s, b);
    if has_id(s, body_id(b)) {
        let k = index_of(s, body_id(b));
        lemma_index_of_unique(t, k);
        if id != body_id(b) {
            if has_id(s, id) {
                let m = index_of(s, id);
                assert(t[m] == s[m]);
                lemma_index_of_unique(t, m);
            } else {
                assert forall|i: int| 0 <= i < t.len() implies body_id(t[i]) != id by {
                    if i != k {
                        assert(t[i] == s[i]);
                    }
                }
            }
        }
    } else {
        let k = s.len() as int;
        lemma_index_of_unique(t, k);
        if id != body_id(b) {
            if has_id(s, id) {
                let m = index_of(s, id);
                assert(t[m] == s[m]);
                lemma_index_of_unique(t, m);
            } else {
                assert forall|i: int| 0 <= i < t.len() implies body_id(t[i]) != id by {
                    if i != k {
                        assert(t[i] == s[i]);
                    }
                }
            }
        }
    }
}

/// Loading two bodies with the same identifier, one after the other, leaves
/// exactly one entry under that identifier, and it holds the second body: the
/// catalog is the one that loading the second body alone would give.
pub proof fn lemma_load_twice(s: Seq<CelestialBody>, b1: CelestialBody, b2: CelestialBody)
    requires
        unique_ids(s),
        body_id(b1) == body_id(b2),
    ensures
        loaded(loaded(s, b1), b2) == loaded(s, b2),
        lookup(loaded(loaded(s, b1), b2), body_id(b2)) == Some(b2),
        has_id(loaded(loaded(s, b1), b2), body_id(b2)),
        forall|i: int, j: int|
            0 <= i < loaded(loaded(s, b1), b2).len() && 0 <= j < loaded(loaded(s, b1), b2).len()
                && body_id(loaded(loaded(s, b1), b2)[i]) == body_id(b2)
                && body_id(loaded(loaded(s, b1), b2)[j]) == body_id(b2) ==> i == j,
{
    let id = body_id(b2);
    let t1 = loaded(s, b1);
    lemma_loaded_unique(s, b1);
    if has_id(s, id) {
        let k = index_of(s, id);
        lemma_index_of_unique(t1, k);
        assert(t1.update(k, b2) =~= s.update(k, b2));
    } else {
        let k = s.len() as int;
        lemma_index_of_unique(t1, k);
        assert(t1.update(k, b2) =~= s.push(b2));
    }
    lemma_loaded_unique(s, b2);
    lemma_loaded_lookup(s, b2, id);
}

/// The starting value of the identifier hash.
pub const ID_HASH_SEED: u64 = 5381;

/// A polynomial hash of an identifier's characters, with wrapping
/// arithmetic: `h * 31 + c` for each character `c` in turn.
pub open spec fn id_hash(s: Seq<char>) -> u64
    decreases s.len(),
{
    if s.len() == 0 {
        ID_HASH_SEED
    } else {
        id_hash(s.drop_last()).wrapping_mul(31).wrapping_add(s.last() as u32 as u64)
    }
}

fn hash_id(s: &str) -> (r: u64)
    ensures
        r == id_hash(s@),
{
    broadcast use vstd::string::axiom_spec_iter;

    let mut h: u64 = ID_HASH_SEED;
    for c in it: s.chars()
        invariant
            it.seq() == s@,
            h == id_hash(s@.take(it.index() as int)),
    {
        proof {
            let n = it.index() as int;
            assert(s@.take(n + 1).drop_last() =~= s@.take(n));
        }
        h = h.wrapping_mul(31).wrapping_add(c as u32 as u64);
    }
    assert(s@.take(s@.len() as int) =~= s@);
    h
}

/// The registry of celestial bodies, keyed by identifier and kept in the order
/// of first loading. An index from identifier hashes to positions makes a
/// lookup touch only the bodies whose identifiers share the hash.
#[derive(Debug)]
pub struct Skyseeker {
    ids: Vec<String>,
    bodies: Vec<CelestialBody>,
    index: HashMap<u64, Vec<usize>>,
}

impl View for Skyseeker {
    type V = Seq<CelestialBody>;

    closed spec fn view(&self) -> Seq<CelestialBody> {
        self.bodies@
    }
}

impl Skyseeker {
    /// The catalog is well formed: identifiers are unique, the list of
    /// identifiers follows the bodies, the index lists every position under
    /// the hash of its identifier, and lists only positions of the catalog.
    pub closed spec fn wf(&self) -> bool {
        &&& self.ids.len() == self.bodies.len()
        &&& forall|i: int| 0 <= i < self.ids.len() ==> #[trigger] self.ids[i]@ == body_id(self.bodies[i])
        &&& unique_ids(self.bodies@)
        &&& forall|i: int|
            0 <= i < self.ids.len() ==> self.index@.contains_key(#[trigger] id_hash(self.ids[i]@))
                && self.index@[id_hash(self.ids[i]@)]@.contains(i as usize)
        &&& forall|h: u64, j: int|
            self.index@.contains_key(h) && 0 <= j < self.index@[h].len() ==> #[trigger] self.index@[h][j]
                < self.ids.len()
    }

    /// A well-formed catalog keeps each identifier at most once.
    pub proof fn lemma_unique_ids(&self)
        requires
            self.wf(),
        ensures
            unique_ids(self@),
    {
    }

    /// An empty catalog.
    pub fn new() -> (r: Skyseeker)
        ensures
            r.wf(),
            r@ == Seq::<CelestialBody>::empty(),
    {
        Skyseeker { ids: Vec::new(), bodies: Vec::new(), index: HashMap::new() }
    }

    /// The position in the catalog of the body with the identifier.
    fn find(&self, id: &str) -> (r: Option<usize>)
        requires
            self.wf(),
        ensures
            match r {
                Some(i) => has_id(self@, id@) && i == index_of(self@, id@) && i < self@.len(),
                None => !has_id(self@, id@),
            },
    {
        broadcast use vstd::std_specs::hash::group_hash_axioms;

        let h = hash_id(id);
        let key = id.to_owned();
        match self.index.get(&h) {
            None => {
                proof {
                    if has_id(self@, id@) {
                        let i = index_of(self@, id@);
                        assert(self.ids[i]@ == id@);
                    }
                }
                None
            },
            Some(bucket) => {
                let mut k: usize = 0;
                while k < bucket.len()
                    invariant
                        self.wf(),
                        self.index@.contains_key(h),
                        self.index@[h] == *bucket,
                        h == id_hash(id@),
                        key@ == id@,
                        k <= bucket.len(),
                        forall|m: int| 0 <= m < k ==> self.ids[bucket[m] as int]@ != id@,
                    decreases bucket.len() - k,
                {
                    let i = bucket[k];
                    assert(i < self.ids.len());
                    if self.ids[i] == key {
                        proof {
                            lemma_index_of_unique(self@, i as int);
                        }
                        return Some(i);
                    }
                    k = k + 1;
                }
                proof {
                    if has_id(self@, id@) {
                        let i = index_of(self@, id@);
                        assert(self.ids[i]@ == id@);
                        assert(bucket@.contains(i as usize));
                        let m = choose|m: int| 0 <= m < bucket@.len() && bucket@[m] == i as usize;
                        assert(self.ids[bucket[m] as int]@ != id@);
                    }
                }
                None
            },
        }
    }

    /// Loads a body under its identifier; a body already kept under that
    /// identifier is replaced.
    pub fn load_body(&mut self, body: CelestialBody)
        requires
            old(self).wf(),
        ensures
            final(self).wf(),
            final(self)@ == loaded(old(self)@, body),
    {
        broadcast use vstd::std_specs::hash::group_hash_axioms;

        let id = body.id().to_owned();
        proof {
            lemma_loaded_unique(self@, body);
        }
        match self.find(id.as_str()) {
            Some(i) => {
                self.bodies.set(i, body);
                assert(self.bodies@ =~= loaded(old(self)@, body));
            },
            None => {
                let h = hash_id(id.as_str());
                let n = self.ids.len();
                let mut bucket = match self.index.remove(&h) {
                    Some(b) => b,
                    None => Vec::new(),
                };
                bucket.push(n);
                self.index.insert(h, bucket);
                self.ids.push(id);
                self.bodies.push(body);
                assert(self.bodies@ =~= loaded(old(self)@, body));
                proof {
                    let oi = old(self).index@;
                    assert forall|i: int|
                        0 <= i < self.ids.len() implies self.index@.contains_key(
                        #[trigger] id_hash(self.ids[i]@),
                    ) && self.index@[id_hash(self.ids[i]@)]@.contains(i as usize) by {
                        if i < n {
                            assert(self.ids[i] == old(self).ids[i]);
                            let hi = id_hash(self.ids[i]@);
                            assert(oi.contains_key(hi) && oi[hi]@.contains(i as usize));
                            if hi == h {
                                let m = choose|m: int| 0 <= m < oi[hi]@.len() && oi[hi]@[m] == i as usize;
                                assert(self.index@[h]@[m] == i as usize);
                            }
                        } else {
                            assert(self.index@[h]@[self.index@[h]@.len() - 1] == n);
                        }
                    }
                    assert forall|g: u64, j: int|
                        self.index@.contains_key(g) && 0 <= j < self.index@[g].len() implies #[trigger] self.index@[g][j]
                            < self.ids.len() by {
                        if g != h {
                            assert(oi.contains_key(g) && self.index@[g] == oi[g]);
                        } else if j < self.index@[g].len() - 1 {
                            assert(oi.contains_key(g) && self.index@[g][j] == oi[g][j]);
                        }
                    }
                }
            },
        }
    }

    /// Loads the bodies in order; a later body replaces an earlier one with
    /// the same identifier.
    pub fn load_bodies(&mut self, new_bodies: Vec<CelestialBody>)
        requires
            old(self).wf(),
        ensures
            final(self).wf(),
            final(self)@ == loaded_all(old(self)@, new_bodies@),
    {
        let ghost all = new_bodies@;
        for body in it: new_bodies.into_iter()
            invariant
                self.wf(),
                it.seq() == all,
                self@ == loaded_all(old(self)@, all.take(it.index() as int)),
        {
            proof {
                let n = it.index() as int;
                assert(all.take(n + 1).drop_last() =~= all.take(n));
            }
            self.load_body(body);
        }
        assert(all.take(all.len() as int) =~= all);
    }

    /// Loads the seven planets other than Earth, the Moon and the Sun.
    pub fn load_standard_bodies(&mut self)
        requires
            old(self).wf(),
        ensures
            final(self).wf(),
            final(self)@ == loaded_all(old(self)@, standard_bodies_spec()),
    {
        self.load_bodies(CelestialBody::standard_bodies());
    }

    /// The body kept under the identifier, if any.
    pub fn get_body(&self, body_id: &str) -> (r: Option<&CelestialBody>)
        requires
            self.wf(),
        ensures
            match r {
                Some(b) => lookup(self@, body_id@) == Some(*b),
                None => lookup(self@, body_id@) is None,
            },
    {
        match self.find(body_id) {
            Some(i) => Some(&self.bodies[i]),
            None => None,
        }
    }

    /// The body kept under the identifier, or the error that no body has it.
    pub fn find_body(&self, body_id: &str) -> (r: Result<&CelestialBody, CoreError>)
        requires
            self.wf(),
        ensures
            match r {
                Ok(b) => lookup(self@, body_id@) == Some(*b),
                Err(e) => lookup(self@, body_id@) is None && (e matches CoreError::BodyNotFound(s)
                    && s@ == body_id@),
            },
    {
        match self.get_body(body_id) {
            Some(b) => Ok(b),
            None => Err(CoreError::BodyNotFound(body_id.to_owned())),
        }
    }

    /// The bodies in catalog order; this is the order of a refresh pass.
    pub fn bodies(&self) -> (r: &[CelestialBody])
        ensures
            r@ == self@,
    {
        self.bodies.as_slice()
    }

    /// A catalog holding the standard solar-system bodies, then the given
    /// bodies (a star catalog) loaded in order.
    pub fn setup(stars: Vec<CelestialBody>) -> (r: Skyseeker)
        ensures
            r.wf(),
            r@ == loaded_all(
                loaded_all(Seq::<CelestialBody>::empty(), standard_bodies_spec()),
                stars@,
            ),
    {
        let mut skyseeker = Skyseeker::new();
        skyseeker.load_standard_bodies();
        skyseeker.load_bodies(stars);
        skyseeker
    }

    /// The number of bodies in the catalog.
    pub fn len(&self) -> (r: usize)
        ensures
            r == self@.len(),
    {
        self.bodies.len()
    }
}

impl Default for Skyseeker {
    fn default() -> (r: Skyseeker)
        ensures
            r.wf(),
            r@ == Seq::<CelestialBody>::empty(),
    {
        Skyseeker::new()
    }
}

} // verus!
