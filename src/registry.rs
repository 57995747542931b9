//! A registry of handles keyed by identifier, with unique identifiers and
//! insertion order kept. Sessions, file-transfer transports, connection
//! descriptors, tunnels and local terminals each live in one.
use vstd::prelude::*;

verus! {

/// Handles of type `H`, each under its own identifier.
pub struct Registry<H> {
    ids: Vec<String>,
    handles: Vec<H>,
    contents: Ghost<Map<Seq<char>, H>>,
}

impl<H> View for Registry<H> {
    type V = Map<Seq<char>, H>;

    closed spec fn view(&self) -> Map<Seq<char>, H> {
        self.contents@
    }
}

impl<H> Registry<H> {
    /// The registry's internal consistency: one handle per identifier,
    /// identifiers unique, and exactly the identifiers of the map.
    pub closed spec fn wf(&self) -> bool {
        &&& self.ids@.len() == self.handles@.len()
        &&& forall|i: int|
            0 <= i < self.ids@.len() ==> self.contents@.contains_key(#[trigger] self.ids@[i]@)
                && self.contents@[self.ids@[i]@] == self.handles@[i]
        &&& forall|k: Seq<char>|
            #[trigger] self.contents@.contains_key(k) ==> exists|i: int|
                0 <= i < self.ids@.len() && #[trigger] self.ids@[i]@ == k
        &&& forall|i: int, j: int|
            0 <= i < j < self.ids@.len() ==> #[trigger] self.ids@[i]@ != #[trigger] self.ids@[j]@
    }

    /// An empty registry.
    pub fn new() -> (r: Self)
        ensures
            r.wf(),
            r@ == Map::<Seq<char>, H>::empty(),
    {
        Registry { ids: Vec::new(), handles: Vec::new(), contents: Ghost(Map::empty()) }
    }

    fn find(&self, id: &str) -> (r: Option<usize>)
        requires
            self.wf(),
        ensures
            r is None <==> !self@.contains_key(id@),
            r matches Some(i) ==> i < self.ids@.len() && self.ids@[i as int]@ == id@,
    {
        let mut i: usize = 0;
        while i < self.ids.len()
            invariant
                self.wf(),
                i <= self.ids@.len(),
                forall|j: int| 0 <= j < i ==> #[trigger] self.ids@[j]@ != id@,
            decreases self.ids@.len() - i,
        {
            if self.ids[i] == String::from_str(id) {
                return Some(i);
            }
            i = i + 1;
        }
        proof {
            if self@.contains_key(id@) {
                let j = choose|j: int| 0 <= j < self.ids@.len() && #[trigger] self.ids@[j]@ == id@;
                assert(self.ids@[j]@ != id@);
            }
        }
        None
    }

    /// Whether an identifier is registered.
    pub fn contains(&self, id: &str) -> (r: bool)
        requires
            self.wf(),
        ensures
            r == self@.contains_key(id@),
    {
        self.find(id).is_some()
    }

    /// The handle under an identifier, if any.
    pub fn get(&self, id: &str) -> (r: Option<&H>)
        requires
            self.wf(),
        ensures
            r is None <==> !self@.contains_key(id@),
            r matches Some(h) ==> *h == self@[id@],
    {
        match self.find(id) {
            Some(i) => Some(&self.handles[i]),
            None => None,
        }
    }

    /// Registers a handle under an identifier, replacing any handle there.
    pub fn insert(&mut self, id: &str, handle: H)
        requires
            old(self).wf(),
        ensures
            final(self).wf(),
            final(self)@ == old(self)@.insert(id@, handle),
    {
        let ghost k = id@;
        match self.find(id) {
            Some(i) => {
                self.handles.set(i, handle);
                self.contents = Ghost(self.contents@.insert(k, self.handles@[i as int]));
                assert forall|j: int| 0 <= j < self.ids@.len() implies self.contents@.contains_key(
                    #[trigger] self.ids@[j]@,
                ) && self.contents@[self.ids@[j]@] == self.handles@[j] by {
                    if j != i {
                        assert(self.ids@[j]@ != self.ids@[i as int]@);
                    }
                }
                assert forall|k2: Seq<char>| #[trigger] self.contents@.contains_key(k2) implies exists|
                    j: int,
                | 0 <= j < self.ids@.len() && #[trigger] self.ids@[j]@ == k2 by {
                    if k2 == k {
                        assert(self.ids@[i as int]@ == k2);
                    } else {
                        assert(old(self).contents@.contains_key(k2));
                    }
                }
            },
            None => {
                self.ids.push(String::from_str(id));
                self.handles.push(handle);
                let ghost n = self.ids@.len() - 1;
                self.contents = Ghost(self.contents@.insert(k, self.handles@[n]));
                assert forall|j: int| 0 <= j < self.ids@.len() implies self.contents@.contains_key(
                    #[trigger] self.ids@[j]@,
                ) && self.contents@[self.ids@[j]@] == self.handles@[j] by {
                    if j < n {
                        assert(old(self).contents@.contains_key(old(self).ids@[j]@));
                    }
                }
                assert forall|k2: Seq<char>| #[trigger] self.contents@.contains_key(k2) implies exists|
                    j: int,
                | 0 <= j < self.ids@.len() && #[trigger] self.ids@[j]@ == k2 by {
                    if k2 == k {
                        assert(self.ids@[n]@ == k2);
                    } else {
                        let j = choose|j: int|
                            0 <= j < old(self).ids@.len() && #[trigger] old(self).ids@[j]@ == k2;
                        assert(self.ids@[j]@ == k2);
                    }
                }
                assert forall|a: int, b: int| 0 <= a < b < self.ids@.len() implies #[trigger] self.ids@[a]@
                    != #[trigger] self.ids@[b]@ by {
                    if b == n {
                        assert(old(self).contents@.contains_key(old(self).ids@[a]@));
                    }
                }
            },
        }
    }

    /// Registers a handle under an identifier that is not yet registered;
    /// hands the handle back, and changes nothing, when it is.
    pub fn insert_new(&mut self, id: &str, handle: H) -> (r: Result<(), H>)
        requires
            old(self).wf(),
        ensures
            final(self).wf(),
            old(self)@.contains_key(id@) ==> r == Err::<(), H>(handle) && final(self)@ == old(self)@,
            !old(self)@.contains_key(id@) ==> r is Ok && final(self)@ == old(self)@.insert(id@, handle),
    {
        if self.contains(id) {
            Err(handle)
        } else {
            self.insert(id, handle);
            Ok(())
        }
    }

    /// Removes an identifier and hands back its handle, if it was registered.
    pub fn remove(&mut self, id: &str) -> (r: Option<H>)
        requires
            old(self).wf(),
        ensures
            final(self).wf(),
            final(self)@ == old(self)@.remove(id@),
            r is None <==> !old(self)@.contains_key(id@),
            r matches Some(h) ==> h == old(self)@[id@],
    {
        let ghost k = id@;
        match self.find(id) {
            Some(i) => {
                let ghost old_ids = self.ids@;
                self.ids.remove(i);
                let h = self.handles.remove(i);
                self.contents = Ghost(self.contents@.remove(k));
                assert forall|j: int| 0 <= j < self.ids@.len() implies self.contents@.contains_key(
                    #[trigger] self.ids@[j]@,
                ) && self.contents@[self.ids@[j]@] == self.handles@[j] by {
                    if j < i {
                        assert(old_ids[j]@ != old_ids[i as int]@);
                        assert(old(self).contents@.contains_key(old_ids[j]@));
                    } else {
                        assert(self.ids@[j] == old_ids[j + 1]);
                        assert(old_ids[j + 1]@ != old_ids[i as int]@);
                        assert(old(self).contents@.contains_key(old_ids[j + 1]@));
                    }
                }
                assert forall|k2: Seq<char>| #[trigger] self.contents@.contains_key(k2) implies exists|
                    j: int,
                | 0 <= j < self.ids@.len() && #[trigger] self.ids@[j]@ == k2 by {
                    let j = choose|j: int| 0 <= j < old_ids.len() && #[trigger] old_ids[j]@ == k2;
                    if j < i {
                        assert(self.ids@[j]@ == k2);
                    } else {
                        assert(j != i);
                        assert(self.ids@[j - 1]@ == k2);
                    }
                }
                assert forall|a: int, b: int| 0 <= a < b < self.ids@.len() implies #[trigger] self.ids@[a]@
                    != #[trigger] self.ids@[b]@ by {
                    let oa = if a < i { a } else { a + 1 };
                    let ob = if b < i { b } else { b + 1 };
                    assert(self.ids@[a] == old_ids[oa]);
                    assert(self.ids@[b] == old_ids[ob]);
                }
                Some(h)
            },
            None => {
                assert(self.contents@ =~= self.contents@.remove(k));
                None
            },
        }
    }

    /// The registered identifiers, in order of registration.
    pub fn ids(&self) -> (r: Vec<String>)
        requires
            self.wf(),
        ensures
            r@.len() == self@.dom().len(),
            forall|i: int| 0 <= i < r@.len() ==> self@.contains_key(#[trigger] r@[i]@),
            forall|k: Seq<char>| #[trigger] self@.contains_key(k) ==> exists|i: int|
                0 <= i < r@.len() && #[trigger] r@[i]@ == k,
            forall|i: int, j: int| 0 <= i < j < r@.len() ==> #[trigger] r@[i]@ != #[trigger] r@[j]@,
    {
        let mut out: Vec<String> = Vec::new();
        let mut i: usize = 0;
        while i < self.ids.len()
            invariant
                self.wf(),
                i <= self.ids@.len(),
                out@.len() == i,
                forall|j: int| 0 <= j < i ==> #[trigger] out@[j] == self.ids@[j],
            decreases self.ids@.len() - i,
        {
            out.push(self.ids[i].clone());
            i = i + 1;
        }
        proof {
            assert(out@ =~= self.ids@);
            lemma_ids_cover(self.ids@, self.contents@);
        }
        out
    }
}

proof fn lemma_ids_cover<H>(ids: Seq<String>, m: Map<Seq<char>, H>)
    requires
        forall|i: int| 0 <= i < ids.len() ==> m.contains_key(#[trigger] ids[i]@),
        forall|k: Seq<char>| #[trigger] m.contains_key(k) ==> exists|i: int|
            0 <= i < ids.len() && #[trigger] ids[i]@ == k,
        forall|i: int, j: int| 0 <= i < j < ids.len() ==> #[trigger] ids[i]@ != #[trigger] ids[j]@,
    ensures
        m.dom().len() == ids.len(),
    decreases ids.len(),
{
    let views = ids.map_values(|s: String| s@);
    assert(views.no_duplicates()) by {
        assert forall|i: int, j: int| 0 <= i < views.len() && 0 <= j < views.len() && i != j
            implies views[i] != views[j] by {
            if i < j {
                assert(ids[i]@ != ids[j]@);
            } else {
                assert(ids[j]@ != ids[i]@);
            }
        }
    }
    assert(views.to_set() =~= m.dom()) by {
        assert forall|k: Seq<char>| m.dom().contains(k) implies views.to_set().contains(k) by {
            let i = choose|i: int| 0 <= i < ids.len() && #[trigger] ids[i]@ == k;
            assert(views[i] == k);
        }
    }
    views.unique_seq_to_set();
}

/// Work on one identifier leaves every other identifier's entry as it was:
/// after registering or removing `a`, an identifier `b` other than `a` is
/// registered, and with the same handle, exactly as before.
pub proof fn registry_keys_are_isolated<H>(
    before: Map<Seq<char>, H>,
    a: Seq<char>,
    h: H,
    b: Seq<char>,
)
    requires
        a != b,
    ensures
        before.insert(a, h).contains_key(b) == before.contains_key(b),
        before.remove(a).contains_key(b) == before.contains_key(b),
        before.contains_key(b) ==> before.insert(a, h)[b] == before[b] && before.remove(a)[b]
            == before[b],
{
}

} // verus!
