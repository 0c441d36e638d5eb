//! Deep merging of ordered maps: a key present on both sides has its two
//! values merged element-wise through [`Merge`] rather than overwritten.

use std::collections::BTreeMap;
use std::collections::BTreeSet;

use vstd::laws_cmp::obeys_cmp;
use vstd::prelude::*;
use vstd::std_specs::btree::spec_btree_map_len;
use vstd::std_specs::btree::spec_btree_set_len;

use crate::runtime::Merge;

verus! {

/// Relies on `BTreeSet::pop_first`: it removes and returns the least key,
/// or returns `None` and leaves the set untouched when the set is empty.
/// The stored-key count shrinks by one on every `Some`, whatever the key
/// type's ordering does.
#[verifier::external_body]
fn pop_first_key<K: Ord>(s: &mut BTreeSet<K>) -> (r: Option<K>)
    ensures
        r is Some <==> spec_btree_set_len(old(s)) != 0,
        r is Some ==> spec_btree_set_len(final(s)) == spec_btree_set_len(old(s)) - 1,
        r is None ==> (final(s)@ == old(s)@ && final(s)@ == Set::<K>::empty()),
        obeys_cmp::<K>() ==> (r matches Some(k) ==> (old(s)@.contains(k) && final(s)@ == old(
            s,
        )@.remove(k))),
{
    s.pop_first()
}

/// Merging an ordered set adds the new elements: for a well-behaved key
/// ordering the result holds exactly the union of the two element sets.
impl<K: Ord> Merge for BTreeSet<K> {
    open spec fn merge_rel(pre: Self, other: Self, post: Self) -> bool {
        obeys_cmp::<K>() ==> post@ == pre@ + other@
    }

    fn merge(&mut self, other: Self) {
        let mut rest = other;
        proof {
            if obeys_cmp::<K>() {
                assert(self@ =~= old(self)@ + other@.difference(rest@));
            }
        }
        loop
            invariant
                obeys_cmp::<K>() ==> {
                    &&& rest@.subset_of(other@)
                    &&& self@ == old(self)@ + other@.difference(rest@)
                },
            ensures
                obeys_cmp::<K>() ==> self@ == old(self)@ + other@,
            decreases spec_btree_set_len(&rest),
        {
            match pop_first_key(&mut rest) {
                None => {
                    proof {
                        if obeys_cmp::<K>() {
                            assert(other@.difference(rest@) =~= other@);
                            assert(self@ =~= old(self)@ + other@);
                        }
                    }
                    break ;
                },
                Some(k) => {
                    self.insert(k);
                    proof {
                        if obeys_cmp::<K>() {
                            assert(self@ =~= old(self)@ + other@.difference(rest@));
                        }
                    }
                },
            }
        }
    }
}

/// Merging an ordered map adds the new entries, the new value winning on a
/// key present on both sides: for a well-behaved key ordering the result is
/// the right-biased union of the two maps. `merge_btree_maps` is the deep
/// alternative that merges the two values of a shared key instead.
impl<K: Ord, V> Merge for BTreeMap<K, V> {
    open spec fn merge_rel(pre: Self, other: Self, post: Self) -> bool {
        obeys_cmp::<K>() ==> post@ == pre@.union_prefer_right(other@)
    }

    fn merge(&mut self, other: Self) {
        let mut rest = other;
        proof {
            if obeys_cmp::<K>() {
                assert(self@ =~= old(self)@.union_prefer_right(other@.remove_keys(rest@.dom())));
            }
        }
        loop
            invariant
                obeys_cmp::<K>() ==> {
                    &&& rest@.submap_of(other@)
                    &&& self@ == old(self)@.union_prefer_right(other@.remove_keys(rest@.dom()))
                },
            ensures
                obeys_cmp::<K>() ==> self@ == old(self)@.union_prefer_right(other@),
            decreases spec_btree_map_len(&rest),
        {
            match pop_first_entry(&mut rest) {
                None => {
                    proof {
                        if obeys_cmp::<K>() {
                            assert(other@.remove_keys(rest@.dom()) =~= other@);
                            assert(self@ =~= old(self)@.union_prefer_right(other@));
                        }
                    }
                    break ;
                },
                Some((k, v)) => {
                    self.insert(k, v);
                    proof {
                        if obeys_cmp::<K>() {
                            assert(self@ =~= old(self)@.union_prefer_right(
                                other@.remove_keys(rest@.dom()),
                            ));
                        }
                    }
                },
            }
        }
    }
}

/// Relies on `BTreeMap::pop_first`: it removes and returns the entry with
/// the least key, or returns `None` and leaves the map untouched when the
/// map is empty. The stored-entry count shrinks by one on every `Some`,
/// whatever the key type's ordering does.
#[verifier::external_body]
fn pop_first_entry<K: Ord, V>(m: &mut BTreeMap<K, V>) -> (r: Option<(K, V)>)
    ensures
        r is Some <==> spec_btree_map_len(old(m)) != 0,
        r is Some ==> spec_btree_map_len(final(m)) == spec_btree_map_len(old(m)) - 1,
        r is None ==> (final(m)@ == old(m)@ && final(m)@ == Map::<K, V>::empty()),
        obeys_cmp::<K>() ==> (r matches Some(kv) ==> (old(m)@.contains_key(kv.0) && kv.1 == old(
            m,
        )@[kv.0] && final(m)@ == old(m)@.remove(kv.0))),
{
    m.pop_first()
}

/// Deeply merges maps with values that implement [`Merge`].
///
/// A key present only on either side keeps that side's value; a key present
/// on both sides has the new value merged into the already present one, not
/// replacing it.
pub fn merge_btree_maps<K: Ord, V: Merge>(left: &mut BTreeMap<K, V>, right: BTreeMap<K, V>)
    ensures
        obeys_cmp::<K>() ==> final(left)@.dom() == old(left)@.dom() + right@.dom(),
        obeys_cmp::<K>() ==> (forall|k: K|
            #![auto]
            old(left)@.contains_key(k) && !right@.contains_key(k) ==> final(left)@[k] == old(
                left,
            )@[k]),
        obeys_cmp::<K>() ==> (forall|k: K|
            #![auto]
            !old(left)@.contains_key(k) && right@.contains_key(k) ==> final(left)@[k]
                == right@[k]),
        obeys_cmp::<K>() ==> (forall|k: K|
            #![auto]
            old(left)@.contains_key(k) && right@.contains_key(k) ==> V::merge_rel(
                old(left)@[k],
                right@[k],
                final(left)@[k],
            )),
{
    let mut rest = right;
    proof {
        if obeys_cmp::<K>() {
            assert(left@.dom() =~= old(left)@.dom() + right@.dom().difference(rest@.dom()));
        }
    }
    loop
        invariant
            obeys_cmp::<K>() ==> {
                &&& rest@.submap_of(right@)
                &&& left@.dom() == old(left)@.dom() + right@.dom().difference(rest@.dom())
                &&& forall|k: K|
                    #![auto]
                    old(left)@.contains_key(k) && (!right@.contains_key(k) || rest@.contains_key(
                        k,
                    )) ==> left@[k] == old(left)@[k]
                &&& forall|k: K|
                    #![auto]
                    !old(left)@.contains_key(k) && right@.contains_key(k) && !rest@.contains_key(
                        k,
                    ) ==> left@[k] == right@[k]
                &&& forall|k: K|
                    #![auto]
                    old(left)@.contains_key(k) && right@.contains_key(k) && !rest@.contains_key(
                        k,
                    ) ==> V::merge_rel(old(left)@[k], right@[k], left@[k])
            },
        ensures
            obeys_cmp::<K>() ==> {
                &&& left@.dom() == old(left)@.dom() + right@.dom()
                &&& forall|k: K|
                    #![auto]
                    old(left)@.contains_key(k) && !right@.contains_key(k) ==> left@[k] == old(
                        left,
                    )@[k]
                &&& forall|k: K|
                    #![auto]
                    !old(left)@.contains_key(k) && right@.contains_key(k) ==> left@[k] == right@[k]
                &&& forall|k: K|
                    #![auto]
                    old(left)@.contains_key(k) && right@.contains_key(k) ==> V::merge_rel(
                        old(left)@[k],
                        right@[k],
                        left@[k],
                    )
            },
        decreases spec_btree_map_len(&rest),
    {
        match pop_first_entry(&mut rest) {
            None => {
                proof {
                    if obeys_cmp::<K>() {
                        assert(rest@ =~= Map::<K, V>::empty());
                        assert(left@.dom() =~= old(left)@.dom() + right@.dom());
                    }
                }
                break ;
            },
            Some((k, v)) => {
                let removed = left.remove(&k);
                match removed {
                    Some(lv) => {
                        let mut merged = lv;
                        merged.merge(v);
                        left.insert(k, merged);
                    },
                    None => {
                        left.insert(k, v);
                    },
                }
                proof {
                    if obeys_cmp::<K>() {
                        assert(left@.dom() =~= old(left)@.dom() + right@.dom().difference(
                            rest@.dom(),
                        ));
                    }
                }
            },
        }
    }
}

} // verus!
