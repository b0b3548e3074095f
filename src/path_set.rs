use vstd::prelude::*;
use crate::text::str_eq;

verus! {

/// A set of paths (store-relative object names or local file names).
///
/// Each path is held once; the set is read as the set of the paths' texts.
pub struct PathSet {
    paths: Vec<String>,
}

/// Whether one of the first `n` strings of `s` reads `p`.
pub open spec fn occurs_in(s: Seq<String>, n: int, p: Seq<char>) -> bool {
    exists|j: int| 0 <= j < n && #[trigger] s[j]@ == p
}

impl View for PathSet {
    type V = Set<Seq<char>>;

    closed spec fn view(&self) -> Set<Seq<char>> {
        Set::new(|p: Seq<char>| occurs_in(self.paths@, self.paths@.len() as int, p))
    }
}

impl PathSet {
    /// The empty set.
    pub fn new() -> (r: PathSet)
        ensures
            r@ == Set::<Seq<char>>::empty(),
    {
        let r = PathSet { paths: Vec::new() };
        assert(r@ =~= Set::<Seq<char>>::empty());
        r
    }

    /// Whether `path` is in the set.
    pub fn contains(&self, path: &str) -> (r: bool)
        ensures
            r == self@.contains(path@),
    {
        let mut i: usize = 0;
        while i < self.paths.len()
            invariant
                i <= self.paths@.len(),
                forall|j: int| 0 <= j < i ==> #[trigger] self.paths@[j]@ != path@,
            decreases self.paths@.len() - i,
        {
            if str_eq(self.paths[i].as_str(), path) {
                assert(self.paths@[i as int]@ == path@);
                return true;
            }
            i = i + 1;
        }
        false
    }

    /// Adds `path`; says whether it was absent before.
    pub fn insert(&mut self, path: &str) -> (added: bool)
        ensures
            final(self)@ == old(self)@.insert(path@),
            added == !old(self)@.contains(path@),
    {
        if self.contains(path) {
            assert(self@ =~= self@.insert(path@));
            return false;
        }
        let ghost before = self.paths@;
        self.paths.push(path.to_owned());
        assert forall|p: Seq<char>| #[trigger] self@.contains(p) == old(self)@.insert(path@).contains(p) by {
            if old(self)@.contains(p) {
                let i = choose|i: int| 0 <= i < before.len() && #[trigger] before[i]@ == p;
                assert(self.paths@[i]@ == p);
            }
            if p == path@ {
                assert(self.paths@[before.len() as int]@ == p);
            }
            if self@.contains(p) {
                let i = choose|i: int| 0 <= i < self.paths@.len() && #[trigger] self.paths@[i]@ == p;
                if i < before.len() {
                    assert(before[i]@ == p);
                }
            }
        }
        assert(self@ =~= old(self)@.insert(path@));
        true
    }

    /// Takes `path` out of the set, if it is there.
    pub fn remove(&mut self, path: &str)
        ensures
            final(self)@ == old(self)@.remove(path@),
    {
        let mut kept: Vec<String> = Vec::new();
        let mut i: usize = 0;
        while i < self.paths.len()
            invariant
                i <= self.paths@.len(),
                forall|p: Seq<char>|
                    #[trigger] occurs_in(kept@, kept@.len() as int, p) <==> (p != path@
                        && occurs_in(self.paths@, i as int, p)),
            decreases self.paths@.len() - i,
        {
            let ghost old_kept = kept@;
            if !str_eq(self.paths[i].as_str(), path) {
                kept.push(self.paths[i].clone());
                assert(kept@[old_kept.len() as int] == self.paths@[i as int]);
            }
            assert forall|p: Seq<char>|
                #[trigger] occurs_in(kept@, kept@.len() as int, p) <==> (p != path@
                    && occurs_in(self.paths@, i + 1, p)) by {
                if occurs_in(kept@, kept@.len() as int, p) {
                    let j = choose|j: int| 0 <= j < kept@.len() && #[trigger] kept@[j]@ == p;
                    if j < old_kept.len() {
                        assert(old_kept[j]@ == p);
                        assert(occurs_in(old_kept, old_kept.len() as int, p));
                        let k = choose|k: int| 0 <= k < i && #[trigger] self.paths@[k]@ == p;
                        assert(occurs_in(self.paths@, i + 1, p));
                    } else {
                        assert(self.paths@[i as int]@ == p);
                    }
                }
                if p != path@ && occurs_in(self.paths@, i + 1, p) {
                    let j = choose|j: int| 0 <= j < i + 1 && #[trigger] self.paths@[j]@ == p;
                    if j < i {
                        assert(occurs_in(self.paths@, i as int, p));
                        assert(occurs_in(old_kept, old_kept.len() as int, p));
                        let k = choose|k: int| 0 <= k < old_kept.len() && #[trigger] old_kept[k]@ == p;
                        assert(kept@[k]@ == p);
                    } else {
                        assert(kept@[old_kept.len() as int]@ == p);
                    }
                }
            }
            i = i + 1;
        }
        self.paths = kept;
        assert(self@ =~= old(self)@.remove(path@));
    }

    /// Whether the set is empty.
    pub fn is_empty(&self) -> (r: bool)
        ensures
            r == (self@ == Set::<Seq<char>>::empty()),
    {
        if self.paths.len() == 0 {
            assert(self@ =~= Set::<Seq<char>>::empty());
            true
        } else {
            assert(self@.contains(self.paths@[0]@));
            false
        }
    }

    /// The paths of the set, as a list.
    pub fn to_vec(&self) -> (r: Vec<String>)
        ensures
            forall|p: Seq<char>| self@.contains(p) <==> #[trigger] occurs_in(r@, r@.len() as int, p),
    {
        let mut r: Vec<String> = Vec::new();
        let mut i: usize = 0;
        while i < self.paths.len()
            invariant
                i <= self.paths@.len(),
                r@.len() == i,
                forall|j: int| 0 <= j < i ==> #[trigger] r@[j] == self.paths@[j],
            decreases self.paths@.len() - i,
        {
            r.push(self.paths[i].clone());
            i = i + 1;
        }
        assert(r@ =~= self.paths@);
        r
    }
}

} // verus!
