//! The capability space: slots that hold capabilities, and the derivation tree that
//! records which slot was minted or copied from which.
use vstd::prelude::*;
use std::collections::HashMap;
use vstd::std_specs::iter::IteratorSpec;
use crate::kernel::capability::{CapDataStore, Capability};
use crate::kernel::cdt::{
    descendants, has_edge, lemma_reaches_extend, lemma_reaches_leaf, lemma_reaches_prepend, lemma_reaches_restrict,
    lemma_reaches_self,
    lemma_reaches_root, lemma_reaches_sub, lemma_subtree_split, reaches, subtree,
};

verus! {

/// Capability slots, and the derivation tree: parent slot -> derived slots, in order.
pub struct CSpace {
    pub slots: HashMap<usize, Capability>,
    pub cdt: HashMap<usize, Vec<usize>>,
    pub cells: CapDataStore,
}

/// The keys of a map, each once.
fn keys_of(m: &HashMap<usize, Vec<usize>>) -> (v: Vec<usize>)
    ensures
        v@.to_set() == m@.dom(),
        v@.no_duplicates(),
{
    broadcast use vstd::std_specs::hash::group_hash_axioms;

    let mut v: Vec<usize> = Vec::new();
    for k in it: m.keys()
        invariant
            v@.len() == it.index(),
            forall|i: int| 0 <= i < v@.len() ==> v@[i] == *it.seq()[i],
            it.seq() == vstd::std_specs::hash::spec_keys_iter(m).remaining(),
            it.index() <= it.seq().len(),
    {
        v.push(*k);
    }
    assert(v@ =~= vstd::std_specs::hash::spec_keys_iter(m).remaining().unref());
    v
}

/// Removes the first occurrence of `x`, if there is one.
fn remove_first(v: &mut Vec<usize>, x: usize)
    ensures
        final(v)@ == old(v)@.remove_value(x),
{
    let mut i: usize = 0;
    while i < v.len()
        invariant
            0 <= i <= v.len(),
            v@ == old(v)@,
            forall|j: int| 0 <= j < i ==> v@[j] != x,
        decreases v.len() - i,
    {
        if v[i] == x {
            proof {
                v@.index_of_first_ensures(x);
            }
            v.remove(i);
            return;
        }
        i = i + 1;
    }
    proof {
        v@.index_of_first_ensures(x);
    }
}

impl CSpace {
    /// The derivation tree: each parent slot and the slots derived from it.
    pub open spec fn tree(&self) -> Map<usize, Seq<usize>> {
        Map::new(|k: usize| self.cdt@.contains_key(k), |k: usize| self.cdt@[k]@)
    }

    /// The data cells are consistent, and every capability in a slot points into a
    /// cell that was handed out, so a fresh capability shares its cell with none of them.
    pub open spec fn wf(&self) -> bool {
        &&& self.cells.wf()
        &&& forall|k: usize| #[trigger] self.caps().contains_key(k) ==> self.caps()[k].data < self.cells.next_cell
    }

    /// The capability held in each occupied slot.
    pub open spec fn caps(&self) -> Map<usize, Capability> {
        self.slots@
    }

    /// The derived slots recorded under `parent`, empty where none are.
    pub open spec fn children(&self, parent: usize) -> Seq<usize> {
        if self.tree().contains_key(parent) {
            self.tree()[parent]
        } else {
            Seq::empty()
        }
    }

    /// An empty capability space.
    pub fn new() -> (cs: Self)
        ensures
            cs.cells.wf(),
            cs.cells.cells@ == Map::<usize, crate::kernel::capability::CapData>::empty(),
            cs.cells.next_cell == 0,
            cs.caps() == Map::<usize, Capability>::empty(),
            cs.tree() == Map::<usize, Seq<usize>>::empty(),
    {
        let cs = CSpace { slots: HashMap::new(), cdt: HashMap::new(), cells: CapDataStore::new() };
        assert(cs.tree() =~= Map::<usize, Seq<usize>>::empty());
        cs
    }

    /// Puts `cap` in slot `cptr`, replacing what was there; the tree is unchanged.
    pub fn insert(&mut self, cptr: usize, cap: Capability)
        ensures
            final(self).cells == old(self).cells,
            final(self).caps() == old(self).caps().insert(cptr, cap),
            final(self).tree() == old(self).tree(),
    {
        broadcast use vstd::std_specs::hash::group_hash_axioms;

        self.slots.insert(cptr, cap);
    }

    /// Puts `cap` in slot `child` and records `child` as derived from `parent`.
    pub fn insert_derived(&mut self, parent: usize, child: usize, cap: Capability)
        ensures
            final(self).cells == old(self).cells,
            final(self).caps() == old(self).caps().insert(child, cap),
            final(self).tree() == old(self).tree().insert(parent, old(self).children(parent).push(child)),
    {
        broadcast use vstd::std_specs::hash::group_hash_axioms;

        self.slots.insert(child, cap);
        let mut kids = match self.cdt.remove(&parent) {
            Some(v) => v,
            None => Vec::new(),
        };
        kids.push(child);
        self.cdt.insert(parent, kids);
        assert(self.tree() =~= old(self).tree().insert(parent, old(self).children(parent).push(child)));
    }

    /// Empties slot `cptr` and takes its first record out of every parent's list.
    pub fn delete(&mut self, cptr: usize)
        ensures
            final(self).cells == old(self).cells,
            final(self).caps() == old(self).caps().remove(cptr),
            final(self).tree() == old(self).tree().map_values(|s: Seq<usize>| s.remove_value(cptr)),
    {
        broadcast use vstd::std_specs::hash::group_hash_axioms;

        self.slots.remove(&cptr);
        let keys = keys_of(&self.cdt);
        let ghost g = old(self).tree();
        let mut i: usize = 0;
        while i < keys.len()
            invariant
                0 <= i <= keys.len(),
                keys@.to_set() == g.dom(),
                keys@.no_duplicates(),
                self.caps() == old(self).caps().remove(cptr),
                self.cells == old(self).cells,
                self.tree().dom() == g.dom(),
                forall|k: usize| #[trigger] self.tree().contains_key(k) ==> self.tree()[k] == (
                    if keys@.subrange(0, i as int).contains(k) {
                        g[k].remove_value(cptr)
                    } else {
                        g[k]
                    }),
            decreases keys.len() - i,
        {
            let key = keys[i];
            assert(keys@.to_set().contains(key));
            assert(!keys@.subrange(0, i as int).contains(key));
            let mut kids = self.cdt.remove(&key).unwrap();
            remove_first(&mut kids, cptr);
            self.cdt.insert(key, kids);
            assert forall|k: usize| #[trigger] self.tree().contains_key(k) implies self.tree()[k]
                == (if keys@.subrange(0, i + 1).contains(k) {
                    g[k].remove_value(cptr)
                } else {
                    g[k]
                }) by {
                let pre = keys@.subrange(0, i as int);
                let post = keys@.subrange(0, i + 1);
                assert(post =~= pre.push(key));
                if post.contains(k) && k != key {
                    let j = choose|j: int| 0 <= j < post.len() && #[trigger] post[j] == k;
                    assert(pre[j] == k);
                }
                if pre.contains(k) {
                    let j = choose|j: int| 0 <= j < pre.len() && #[trigger] pre[j] == k;
                    assert(post[j] == k);
                }
                if k == key {
                    assert(post[i as int] == k);
                }
            }
            assert(self.tree().dom() =~= g.dom());
            i = i + 1;
        }
        assert forall|k: usize| #[trigger] self.tree().contains_key(k) implies keys@.subrange(
            0,
            i as int,
        ).contains(k) by {
            assert(keys@.to_set().contains(k));
            assert(keys@.subrange(0, i as int) =~= keys@);
        }
        assert(self.tree() =~= g.map_values(|s: Seq<usize>| s.remove_value(cptr)));
    }

    /// Empties every slot derived from `parent`, directly or transitively, and drops
    /// the tree's records of `parent` and of everything derived from it. `parent`'s own
    /// slot stays, unless it was itself derived from what it revokes.
    pub fn revoke(&mut self, parent: usize)
        ensures
            final(self).cells == old(self).cells,
            final(self).tree() == old(self).tree().remove_keys(subtree(old(self).tree(), parent)),
            final(self).caps() == old(self).caps().remove_keys(descendants(old(self).tree(), parent)),
        decreases old(self).cdt@.len(),
    {
        broadcast use vstd::std_specs::hash::group_hash_axioms;

        let ghost g = old(self).tree();
        let ghost s = old(self).caps();
        match self.cdt.remove(&parent) {
            None => {
                proof {
                    assert forall|k: usize| true implies (reaches(g, parent, k) <==> k == parent)
                        && !descendants(g, parent).contains(k) by {
                        lemma_reaches_leaf(g, parent, k);
                    }
                    assert(self.tree() =~= g.remove_keys(subtree(g, parent)));
                    assert(self.caps() =~= s.remove_keys(descendants(g, parent)));
                }
            },
            Some(children) => {
                let ghost g0 = g.remove(parent);
                let ghost cs = children@;
                assert(self.tree() =~= g0);
                assert(cs == g[parent]);
                let mut i: usize = 0;
                while i < children.len()
                    invariant
                        0 <= i <= children.len(),
                        children@ == cs,
                        cs == g[parent],
                        g.contains_key(parent),
                        g0 == g.remove(parent),
                        g == old(self).tree(),
                        s == old(self).caps(),
                        self.cells == old(self).cells,
                        old(self).cdt@.dom().finite(),
                        self.tree() == g0.remove_keys(
                            Set::new(|k: usize| exists|j: int| 0 <= j < i && #[trigger] reaches(g0, cs[j], k)),
                        ),
                        self.caps() == s.remove_keys(
                            Set::new(|k: usize| exists|j: int| 0 <= j < i && #[trigger] reaches(g0, cs[j], k)),
                        ),
                    decreases children.len() - i,
                {
                    let child = children[i];
                    let ghost u = Set::new(
                        |k: usize| exists|j: int| 0 <= j < i && #[trigger] reaches(g0, cs[j], k),
                    );
                    let ghost u1 = Set::new(
                        |k: usize| exists|j: int| 0 <= j < i + 1 && #[trigger] reaches(g0, cs[j], k),
                    );
                    let ghost gi = self.tree();
                    proof {
                        assert forall|a: usize, b: usize| #[trigger] u.contains(a) && #[trigger] has_edge(g0, a, b)
                            implies u.contains(b) by {
                            let j = choose|j: int| 0 <= j < i && #[trigger] reaches(g0, cs[j], a);
                            lemma_reaches_extend(g0, cs[j], a, b);
                        }
                        assert(self.cdt@.dom() =~= gi.dom());
                        assert(gi.dom().subset_of(old(self).cdt@.dom().remove(parent)));
                        vstd::set_lib::lemma_len_subset(gi.dom(), old(self).cdt@.dom().remove(parent));
                    }
                    self.revoke(child);
                    self.slots.remove(&child);
                    proof {
                        // What `child` reaches now, beside what was already gone, is what it
                        // reached with only `parent`'s entry removed.
                        assert forall|k: usize| !u.contains(k) implies (reaches(gi, child, k) <==> reaches(
                            g0,
                            child,
                            k,
                        )) by {
                            if reaches(gi, child, k) {
                                lemma_reaches_sub(g0, gi, child, k);
                            }
                            if reaches(g0, child, k) {
                                lemma_reaches_restrict(g0, u, child, k);
                            }
                        }
                        assert forall|k: usize| true implies (u1.contains(k) <==> (u.contains(k) || reaches(
                            g0,
                            cs[i as int],
                            k,
                        ))) by {
                            if u1.contains(k) {
                                let j = choose|j: int| 0 <= j < i + 1 && #[trigger] reaches(g0, cs[j], k);
                                if j < i {
                                    assert(u.contains(k));
                                }
                            }
                            if u.contains(k) {
                                let j = choose|j: int| 0 <= j < i && #[trigger] reaches(g0, cs[j], k);
                                assert(u1.contains(k));
                            }
                            if reaches(g0, cs[i as int], k) {
                                assert(u1.contains(k));
                            }
                        }
                        assert forall|k: usize| true implies (reaches(gi, child, k) <==> (k == child
                            || descendants(gi, child).contains(k))) by {
                            lemma_subtree_split(gi, child, k);
                        }
                        assert(self.tree() =~= g0.remove_keys(u1));
                        assert(self.caps() =~= s.remove_keys(u1));
                    }
                    i = i + 1;
                }
                proof {
                    let un = Set::new(
                        |k: usize| exists|j: int| 0 <= j < i && #[trigger] reaches(g0, cs[j], k),
                    );
                    assert forall|k: usize| true implies (reaches(g, parent, k) <==> (k == parent
                        || un.contains(k))) && (descendants(g, parent).contains(k) <==> un.contains(k)) by {
                        lemma_reaches_root(g, parent, k);
                    }
                    assert(self.tree() == g0.remove_keys(un));
                    assert forall|k: usize| #[trigger] g.remove_keys(subtree(g, parent)).contains_key(k)
                        <==> g0.remove_keys(un).contains_key(k) by {
                        lemma_reaches_root(g, parent, k);
                    }
                    assert(self.tree() =~= g.remove_keys(subtree(g, parent)));
                    assert(self.caps() =~= s.remove_keys(descendants(g, parent)));
                }
            },
        }
    }

    /// The capability in slot `cptr`, if the slot is occupied.
    pub fn get(&self, cptr: usize) -> (r: Option<&Capability>)
        ensures
            r == (if self.caps().contains_key(cptr) {
                Some(&self.caps()[cptr])
            } else {
                None
            }),
    {
        broadcast use vstd::std_specs::hash::group_hash_axioms;

        self.slots.get(&cptr)
    }
}

/// A capability minted or copied from `parent` is taken back when `parent` is revoked,
/// however the tree looked before.
pub proof fn law_revoke_takes_back_derived(cs: CSpace, parent: usize, child: usize)
    ensures
        descendants(cs.tree().insert(parent, cs.children(parent).push(child)), parent).contains(child),
        subtree(cs.tree().insert(parent, cs.children(parent).push(child)), parent).contains(child),
{
    let g1 = cs.tree().insert(parent, cs.children(parent).push(child));
    let kids = cs.children(parent).push(child);
    assert(kids[kids.len() - 1] == child);
    assert(has_edge(g1, parent, child));
    lemma_reaches_self(g1, child);
    lemma_reaches_prepend(g1, parent, child, child);
}

} // verus!
