//! The order in which a collection lists what it holds: by ascending key.

use vstd::prelude::*;

verus! {

/// Each key is smaller than the next.
pub open spec fn ascending(keys: Seq<u64>) -> bool {
    forall|i: int, j: int| 0 <= i < j < keys.len() ==> keys[i] < keys[j]
}

/// `keys` holds the members of `dom`, each once, smallest first.
pub open spec fn enumerates(keys: Seq<u64>, dom: Set<u64>) -> bool {
    &&& ascending(keys)
    &&& forall|k: u64| keys.contains(k) <==> dom.contains(k)
}

/// The members of `dom`, smallest first.
pub open spec fn keys_in_order(dom: Set<u64>) -> Seq<u64> {
    choose|keys: Seq<u64>| enumerates(keys, dom)
}

/// The values of `m`, by ascending key.
pub open spec fn in_key_order<V>(m: Map<u64, V>) -> Seq<V> {
    keys_in_order(m.dom()).map_values(|k: u64| m[k])
}

/// Two ascending sequences with the same members are the same sequence.
pub proof fn lemma_ascending_unique(a: Seq<u64>, b: Seq<u64>)
    requires
        ascending(a),
        ascending(b),
        forall|k: u64| a.contains(k) <==> b.contains(k),
    ensures
        a == b,
    decreases a.len(),
{
    if a.len() == 0 {
        if b.len() > 0 {
            assert(b.contains(b[0]));
            assert(a.contains(b[0]));
        }
        assert(a =~= b);
    } else {
        let top = a.last();
        assert(a.contains(top));
        assert(b.contains(top));
        assert(b.len() > 0);
        assert(b.contains(b.last()));
        assert(a.contains(b.last()));
        let i = choose|i: int| 0 <= i < a.len() && a[i] == b.last();
        let j = choose|j: int| 0 <= j < b.len() && b[j] == top;
        assert(b.last() <= top);
        assert(top <= b.last());
        let a0 = a.drop_last();
        let b0 = b.drop_last();
        assert forall|k: u64| a0.contains(k) <==> b0.contains(k) by {
            if a0.contains(k) {
                let x = choose|x: int| 0 <= x < a0.len() && a0[x] == k;
                assert(a[x] == k);
                assert(a.contains(k));
                assert(b.contains(k));
                let y = choose|y: int| 0 <= y < b.len() && b[y] == k;
                assert(k < top);
                assert(y < b.len() - 1);
                assert(b0[y] == k);
            }
            if b0.contains(k) {
                let y = choose|y: int| 0 <= y < b0.len() && b0[y] == k;
                assert(b[y] == k);
                assert(b.contains(k));
                assert(a.contains(k));
                let x = choose|x: int| 0 <= x < a.len() && a[x] == k;
                assert(k < b.last());
                assert(x < a.len() - 1);
                assert(a0[x] == k);
            }
        }
        lemma_ascending_unique(a0, b0);
        assert(a =~= a0.push(top));
        assert(b =~= b0.push(top));
    }
}

/// Whatever enumerates `dom` is `keys_in_order(dom)`.
pub proof fn lemma_keys_in_order(keys: Seq<u64>, dom: Set<u64>)
    requires
        enumerates(keys, dom),
    ensures
        keys_in_order(dom) == keys,
        enumerates(keys_in_order(dom), dom),
{
    lemma_ascending_unique(keys, keys_in_order(dom));
}

/// A finite set that is not empty has a greatest member.
proof fn lemma_has_greatest(dom: Set<u64>) -> (top: u64)
    requires
        dom.finite(),
        dom.len() > 0,
    ensures
        dom.contains(top),
        forall|k: u64| dom.contains(k) ==> k <= top,
    decreases dom.len(),
{
    let x = dom.choose();
    let rest = dom.remove(x);
    if rest.len() == 0 {
        assert forall|k: u64| dom.contains(k) implies k <= x by {
            if k != x {
                assert(rest.contains(k));
            }
        }
        x
    } else {
        let t = lemma_has_greatest(rest);
        let top = if x > t {
            x
        } else {
            t
        };
        assert forall|k: u64| dom.contains(k) implies k <= top by {
            if k != x {
                assert(rest.contains(k));
            }
        }
        top
    }
}

/// The members of a finite set can be put in ascending order, so
/// `keys_in_order` does so.
pub proof fn lemma_enumeration_exists(dom: Set<u64>)
    requires
        dom.finite(),
    ensures
        enumerates(keys_in_order(dom), dom),
    decreases dom.len(),
{
    if dom.len() == 0 {
        let none = Seq::<u64>::empty();
        assert forall|k: u64| none.contains(k) <==> dom.contains(k) by {
            if dom.contains(k) {
                assert(dom.remove(k).len() >= 0);
            }
        }
        assert(enumerates(none, dom));
    } else {
        let top = lemma_has_greatest(dom);
        let rest = dom.remove(top);
        lemma_enumeration_exists(rest);
        let below = keys_in_order(rest);
        let keys = below.push(top);
        assert forall|i: int, j: int| 0 <= i < j < keys.len() implies keys[i] < keys[j] by {
            assert(below.contains(below[i]));
            assert(rest.contains(below[i]));
            if j < below.len() {
                assert(below[i] < below[j]);
            }
        }
        assert forall|k: u64| keys.contains(k) <==> dom.contains(k) by {
            if keys.contains(k) {
                let i = choose|i: int| 0 <= i < keys.len() && keys[i] == k;
                if i < below.len() {
                    assert(below.contains(below[i]));
                }
            }
            if dom.contains(k) {
                if k == top {
                    assert(keys[below.len() as int] == k);
                } else {
                    assert(rest.contains(k));
                    assert(below.contains(k));
                    let i = choose|i: int| 0 <= i < below.len() && below[i] == k;
                    assert(keys[i] == k);
                }
            }
        }
        assert(enumerates(keys, dom));
    }
}

/// A finite map lists each of its values.
pub proof fn lemma_in_key_order_holds<V>(m: Map<u64, V>, key: u64)
    requires
        m.dom().finite(),
        m.dom().contains(key),
    ensures
        in_key_order(m).contains(m[key]),
        in_key_order(m).len() > 0,
{
    lemma_enumeration_exists(m.dom());
    let keys = keys_in_order(m.dom());
    assert(keys.contains(key));
    let i = choose|i: int| 0 <= i < keys.len() && keys[i] == key;
    assert(in_key_order(m)[i] == m[key]);
}

/// A map with one key lists the one value.
pub proof fn lemma_in_key_order_single<V>(m: Map<u64, V>, key: u64)
    requires
        forall|k: u64| m.dom().contains(k) <==> k == key,
    ensures
        in_key_order(m) == seq![m[key]],
{
    let one = seq![key];
    assert forall|k: u64| one.contains(k) <==> m.dom().contains(k) by {
        if k == key {
            assert(one[0] == k);
        }
    }
    assert(enumerates(one, m.dom()));
    lemma_keys_in_order(one, m.dom());
    assert(in_key_order(m) =~= seq![m[key]]);
}

} // verus!
