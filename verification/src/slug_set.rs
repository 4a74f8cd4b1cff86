//! A set of site slugs, held as a vector without repeats.
use vstd::prelude::*;
use crate::model::Site;

verus! {

/// The slugs of a list of sites, in order.
pub open spec fn slugs_of(sites: Seq<Site>) -> Seq<Seq<char>> {
    sites.map_values(|s: Site| s.slug@)
}

/// The views of a list of strings.
pub open spec fn texts(v: Seq<String>) -> Seq<Seq<char>> {
    v.map_values(|s: String| s@)
}

/// A set of slugs, such as the sites marked for a batch action.
#[derive(Debug)]
pub struct SlugSet {
    items: Vec<String>,
}

impl SlugSet {
    /// The slugs held, in insertion order.
    pub closed spec fn entries(self) -> Seq<Seq<char>> {
        texts(self.items@)
    }

    #[verifier::type_invariant]
    spec fn without_repeats(self) -> bool {
        self.entries().no_duplicates()
    }
}

impl View for SlugSet {
    type V = Set<Seq<char>>;

    closed spec fn view(&self) -> Set<Seq<char>> {
        self.entries().to_set()
    }
}

proof fn lemma_push_new(s: Seq<Seq<char>>, x: Seq<char>)
    requires
        s.no_duplicates(),
        !s.contains(x),
    ensures
        s.push(x).no_duplicates(),
        s.push(x).to_set() == s.to_set().insert(x),
{
    let t = s.push(x);
    assert forall|i: int, j: int| 0 <= i < t.len() && 0 <= j < t.len() && i != j implies t[i]
        != t[j] by {
        if i < s.len() && j < s.len() {
            assert(t[i] == s[i] && t[j] == s[j]);
        } else if i < s.len() {
            assert(t[i] == s[i]);
            assert(s.contains(t[i]));
        } else {
            assert(t[j] == s[j]);
            assert(s.contains(t[j]));
        }
    }
    assert forall|y: Seq<char>| t.contains(y) <==> s.contains(y) || y == x by {
        if t.contains(y) {
            let k = choose|k: int| 0 <= k < t.len() && t[k] == y;
            if k < s.len() {
                assert(s[k] == y);
            }
        }
        if s.contains(y) {
            let k = choose|k: int| 0 <= k < s.len() && s[k] == y;
            assert(t[k] == y);
        }
        if y == x {
            assert(t[s.len() as int] == y);
        }
    }
    assert(t.to_set() =~= s.to_set().insert(x));
}

proof fn lemma_remove_at(s: Seq<Seq<char>>, i: int)
    requires
        s.no_duplicates(),
        0 <= i < s.len(),
    ensures
        s.remove(i).no_duplicates(),
        s.remove(i).to_set() == s.to_set().remove(s[i]),
{
    let t = s.remove(i);
    assert forall|a: int, b: int| 0 <= a < t.len() && 0 <= b < t.len() && a != b implies t[a]
        != t[b] by {
        let a2 = if a < i { a } else { a + 1 };
        let b2 = if b < i { b } else { b + 1 };
        assert(t[a] == s[a2] && t[b] == s[b2]);
    }
    assert forall|y: Seq<char>| t.contains(y) <==> s.contains(y) && y != s[i] by {
        if t.contains(y) {
            let k = choose|k: int| 0 <= k < t.len() && t[k] == y;
            let k2 = if k < i { k } else { k + 1 };
            assert(s[k2] == y);
        }
        if s.contains(y) && y != s[i] {
            let k = choose|k: int| 0 <= k < s.len() && s[k] == y;
            if k < i {
                assert(t[k] == y);
            } else {
                assert(t[k - 1] == y);
            }
        }
    }
    assert(t.to_set() =~= s.to_set().remove(s[i]));
}

impl SlugSet {
    /// The set is finite.
    pub proof fn lemma_finite(&self)
        ensures
            self@.finite(),
    {
        vstd::seq_lib::seq_to_set_is_finite(self.entries());
    }

    /// An empty set.
    pub fn new() -> (r: Self)
        ensures
            r@ == Set::<Seq<char>>::empty(),
    {
        let r = SlugSet { items: Vec::new() };
        assert(r.entries() =~= Seq::<Seq<char>>::empty());
        assert(r@ =~= Set::<Seq<char>>::empty());
        r
    }

    /// Whether `slug` is in the set.
    pub fn contains(&self, slug: &String) -> (r: bool)
        ensures
            r == self@.contains(slug@),
    {
        let n = self.items.len();
        for i in 0..n
            invariant
                n == self.items@.len(),
                forall|j: int| 0 <= j < i ==> self.entries()[j] != slug@,
        {
            if self.items[i] == *slug {
                assert(self.entries()[i as int] == slug@);
                return true;
            }
        }
        assert(!self.entries().contains(slug@));
        false
    }

    /// The number of slugs in the set.
    pub fn len(&self) -> (r: usize)
        ensures
            r == self@.len(),
    {
        proof {
            use_type_invariant(self);
            self.entries().unique_seq_to_set();
        }
        self.items.len()
    }

    /// Whether the set is empty.
    pub fn is_empty(&self) -> (r: bool)
        ensures
            r == (self@ =~= Set::<Seq<char>>::empty()),
    {
        if self.items.len() == 0 {
            assert(self.entries() =~= Seq::<Seq<char>>::empty());
            assert(self@ =~= Set::<Seq<char>>::empty());
            true
        } else {
            assert(self@.contains(self.entries()[0]));
            false
        }
    }

    /// Adds `slug`; tells whether it was absent (`HashSet::insert`).
    pub fn insert(&mut self, slug: String) -> (r: bool)
        ensures
            final(self)@ == old(self)@.insert(slug@),
            r == !old(self)@.contains(slug@),
    {
        proof {
            use_type_invariant(&*self);
        }
        if self.contains(&slug) {
            assert(self@ =~= old(self)@.insert(slug@));
            false
        } else {
            let ghost before = self.entries();
            proof {
                lemma_push_new(before, slug@);
            }
            let mut items: Vec<String> = Vec::new();
            std::mem::swap(&mut items, &mut self.items);
            items.push(slug);
            assert(texts(items@) =~= before.push(slug@));
            self.items = items;
            true
        }
    }

    /// Takes `slug` out of the set; tells whether it was there.
    pub fn remove(&mut self, slug: &String) -> (r: bool)
        ensures
            final(self)@ == old(self)@.remove(slug@),
            r == old(self)@.contains(slug@),
    {
        proof {
            use_type_invariant(&*self);
        }
        let n = self.items.len();
        let mut i: usize = 0;
        while i < n
            invariant
                n == self.items@.len(),
                i <= n,
                *self == *old(self),
                self.entries().no_duplicates(),
                forall|j: int| 0 <= j < i ==> self.entries()[j] != slug@,
            decreases n - i,
        {
            if self.items[i] == *slug {
                let ghost before = self.entries();
                proof {
                    lemma_remove_at(before, i as int);
                }
                let mut items: Vec<String> = Vec::new();
                std::mem::swap(&mut items, &mut self.items);
                items.remove(i);
                assert(texts(items@) =~= before.remove(i as int));
                self.items = items;
                return true;
            }
            i = i + 1;
        }
        assert(!self.entries().contains(slug@));
        assert(self@ =~= old(self)@.remove(slug@));
        false
    }

    /// Empties the set.
    pub fn clear(&mut self)
        ensures
            final(self)@ == Set::<Seq<char>>::empty(),
    {
        *self = SlugSet::new();
    }

    /// Keeps only the slugs of `sites`.
    pub fn retain_listed(&mut self, sites: &Vec<Site>)
        ensures
            final(self)@ == old(self)@.intersect(slugs_of(sites@).to_set()),
    {
        proof {
            use_type_invariant(&*self);
        }
        let ghost e = self.entries();
        let ghost listed_set = slugs_of(sites@).to_set();
        let mut kept: Vec<String> = Vec::new();
        let n = self.items.len();
        assert(texts(kept@) =~= Seq::<Seq<char>>::empty());
        assert(e.take(0).to_set() =~= Set::<Seq<char>>::empty());
        for i in 0..n
            invariant
                n == self.items@.len(),
                e == self.entries(),
                listed_set == slugs_of(sites@).to_set(),
                e.no_duplicates(),
                texts(kept@).no_duplicates(),
                forall|y: Seq<char>| #[trigger] texts(kept@).contains(y) ==> e.take(i as int).contains(y),
                texts(kept@).to_set() == e.take(i as int).to_set().intersect(listed_set),
        {
            let listed = listed_slug(sites, &self.items[i]);
            let ghost kv = texts(kept@);
            let ghost x = e[i as int];
            assert(e.take(i + 1) =~= e.take(i as int).push(x));
            assert(!e.take(i as int).contains(x)) by {
                if e.take(i as int).contains(x) {
                    let k = choose|k: int| 0 <= k < i && e.take(i as int)[k] == x;
                    assert(e[k] == x);
                }
            }
            proof {
                lemma_push_new(e.take(i as int), x);
            }
            assert(self.items@[i as int]@ == x);
            assert(listed == slugs_of(sites@).contains(x));
            assert(listed_set.contains(x) == slugs_of(sites@).contains(x));
            if listed {
                proof {
                    lemma_push_new(kv, x);
                }
                kept.push(self.items[i].clone());
                assert(texts(kept@) =~= kv.push(x));
                assert(kv.push(x).to_set() =~= e.take(i + 1).to_set().intersect(listed_set));
                assert forall|y: Seq<char>| #[trigger] texts(kept@).contains(y) implies e.take(i + 1).contains(y) by {
                    assert(kv.push(x).to_set().contains(y));
                }
            } else {
                assert(kv.to_set() =~= e.take(i + 1).to_set().intersect(listed_set));
                assert forall|y: Seq<char>| #[trigger] texts(kept@).contains(y) implies e.take(i + 1).contains(y) by {
                    assert(e.take(i as int).to_set().contains(y));
                    assert(e.take(i + 1).to_set().contains(y));
                }
            }
        }
        assert(e.take(n as int) =~= e);
        self.items = kept;
    }

    /// Adds the slugs of all `sites`.
    pub fn insert_all(&mut self, sites: &Vec<Site>)
        ensures
            final(self)@ == old(self)@.union(slugs_of(sites@).to_set()),
    {
        let n = sites.len();
        assert(slugs_of(sites@).take(0).to_set() =~= Set::<Seq<char>>::empty());
        assert(old(self)@.union(Set::<Seq<char>>::empty()) =~= old(self)@);
        for i in 0..n
            invariant
                n == sites@.len(),
                self@ == old(self)@.union(slugs_of(sites@).take(i as int).to_set()),
        {
            let ghost t = slugs_of(sites@).take(i as int);
            self.insert(sites[i].slug.clone());
            assert(slugs_of(sites@).take(i + 1) =~= t.push(sites@[i as int].slug@));
            assert forall|y: Seq<char>| t.push(sites@[i as int].slug@).contains(y) <==> t.contains(y) || y == sites@[i as int].slug@ by {
                if t.push(sites@[i as int].slug@).contains(y) {
                    let k = choose|k: int| 0 <= k < t.len() + 1 && t.push(sites@[i as int].slug@)[k] == y;
                    if k < t.len() {
                        assert(t[k] == y);
                    }
                }
                if t.contains(y) {
                    let k = choose|k: int| 0 <= k < t.len() && t[k] == y;
                    assert(t.push(sites@[i as int].slug@)[k] == y);
                }
                if y == sites@[i as int].slug@ {
                    assert(t.push(sites@[i as int].slug@)[t.len() as int] == y);
                }
            }
            assert(self@ =~= old(self)@.union(slugs_of(sites@).take(i + 1).to_set()));
        }
        assert(slugs_of(sites@).take(n as int) =~= slugs_of(sites@));
    }
}

/// Whether some site of `sites` has the slug `slug`.
pub fn listed_slug(sites: &Vec<Site>, slug: &String) -> (r: bool)
    ensures
        r == slugs_of(sites@).contains(slug@),
{
    let n = sites.len();
    for i in 0..n
        invariant
            n == sites@.len(),
            forall|j: int| 0 <= j < i ==> slugs_of(sites@)[j] != slug@,
    {
        if sites[i].slug == *slug {
            assert(slugs_of(sites@)[i as int] == slug@);
            return true;
        }
    }
    false
}

} // verus!
