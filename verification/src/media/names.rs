//! File names as byte strings: their order and how a listing is put in it.
//!
//! Names are compared by their UTF-8 bytes, which is the order of their
//! code points. A listing is ordered by insertion, so names that compare
//! equal keep the order in which they were found.

use vstd::prelude::*;

verus! {

/// The bytes of a name.
pub open spec fn name_bytes(name: Seq<char>) -> Seq<u8> {
    vstd::utf8::encode_utf8(name)
}

/// The bytes of each name of a list.
pub open spec fn names_bytes(names: Seq<String>) -> Seq<Seq<u8>> {
    names.map_values(|name: String| name_bytes(name@))
}

/// Whether `a` comes before `b`, or equals it, in lexicographic byte order.
pub open spec fn bytes_le(a: Seq<u8>, b: Seq<u8>) -> bool
    decreases a.len(),
{
    if a.len() == 0 {
        true
    } else if b.len() == 0 {
        false
    } else if a[0] != b[0] {
        a[0] < b[0]
    } else {
        bytes_le(a.drop_first(), b.drop_first())
    }
}

/// Every byte string is before or equal to itself.
pub proof fn bytes_le_is_reflexive(a: Seq<u8>)
    ensures
        bytes_le(a, a),
    decreases a.len(),
{
    if a.len() > 0 {
        bytes_le_is_reflexive(a.drop_first());
    }
}

/// Of two byte strings one is before or equal to the other.
pub proof fn bytes_le_is_total(a: Seq<u8>, b: Seq<u8>)
    ensures
        bytes_le(a, b) || bytes_le(b, a),
    decreases a.len(),
{
    if a.len() > 0 && b.len() > 0 && a[0] == b[0] {
        bytes_le_is_total(a.drop_first(), b.drop_first());
    }
}

/// The order is transitive.
pub proof fn bytes_le_is_transitive(a: Seq<u8>, b: Seq<u8>, c: Seq<u8>)
    requires
        bytes_le(a, b),
        bytes_le(b, c),
    ensures
        bytes_le(a, c),
    decreases a.len(),
{
    if a.len() > 0 && b.len() > 0 && c.len() > 0 && a[0] == b[0] && b[0] == c[0] {
        bytes_le_is_transitive(a.drop_first(), b.drop_first(), c.drop_first());
    }
}

/// Two byte strings that are each before or equal to the other are the same.
pub proof fn bytes_le_is_antisymmetric(a: Seq<u8>, b: Seq<u8>)
    requires
        bytes_le(a, b),
        bytes_le(b, a),
    ensures
        a == b,
    decreases a.len(),
{
    if a.len() > 0 && b.len() > 0 {
        bytes_le_is_antisymmetric(a.drop_first(), b.drop_first());
        assert(a =~= seq![a[0]] + a.drop_first());
        assert(b =~= seq![b[0]] + b.drop_first());
    } else {
        assert(a =~= b);
    }
}

/// Whether `a` comes before `b`, or equals it, in lexicographic byte order.
pub fn bytes_before_or_equal(a: &[u8], b: &[u8]) -> (le: bool)
    ensures
        le == bytes_le(a@, b@),
{
    let mut i: usize = 0;
    assert(a@.skip(0) =~= a@);
    assert(b@.skip(0) =~= b@);
    while i < a.len() && i < b.len()
        invariant
            i <= a.len(),
            i <= b.len(),
            bytes_le(a@, b@) == bytes_le(a@.skip(i as int), b@.skip(i as int)),
        decreases a.len() - i,
    {
        assert(a@.skip(i as int)[0] == a@[i as int]);
        assert(b@.skip(i as int)[0] == b@[i as int]);
        if a[i] != b[i] {
            return a[i] < b[i];
        }
        assert(a@.skip(i as int).drop_first() =~= a@.skip(i + 1));
        assert(b@.skip(i as int).drop_first() =~= b@.skip(i + 1));
        i += 1;
    }
    a.len() <= b.len()
}

/// Whether the name `a` comes before the name `b`, or equals it.
pub fn name_before_or_equal(a: &String, b: &String) -> (le: bool)
    ensures
        le == bytes_le(name_bytes(a@), name_bytes(b@)),
{
    bytes_before_or_equal(a.as_str().as_bytes(), b.as_str().as_bytes())
}

/// Where a new key goes among the keys already in `order`: behind the last
/// one that is before or equal to it.
pub open spec fn insertion_point(keys: Seq<Seq<u8>>, order: Seq<int>, key: Seq<u8>) -> int
    decreases order.len(),
{
    if order.len() == 0 {
        0
    } else if bytes_le(keys[order.last()], key) {
        order.len() as int
    } else {
        insertion_point(keys, order.drop_last(), key)
    }
}

/// The positions of the first `n` keys, in the order of the keys; keys that
/// are equal stand in the order of their positions.
pub open spec fn stable_order(keys: Seq<Seq<u8>>, n: nat) -> Seq<int>
    decreases n,
{
    if n == 0 {
        Seq::empty()
    } else {
        let before = stable_order(keys, (n - 1) as nat);
        before.insert(insertion_point(keys, before, keys[n - 1]), n - 1)
    }
}

/// The positions of all keys, in the order of the keys.
pub open spec fn sorted_order(keys: Seq<Seq<u8>>) -> Seq<int> {
    stable_order(keys, keys.len())
}

/// Whether the keys, taken in this order, never go down.
pub open spec fn in_order(keys: Seq<Seq<u8>>, order: Seq<int>) -> bool {
    forall|a: int, b: int|
        0 <= a < b < order.len() ==> bytes_le(#[trigger] keys[order[a]], #[trigger] keys[order[b]])
}

/// Whether equal keys stand, in this order, as their positions do.
pub open spec fn keeps_ties(keys: Seq<Seq<u8>>, order: Seq<int>) -> bool {
    forall|a: int, b: int|
        0 <= a < b < order.len() && keys[#[trigger] order[a]] == keys[#[trigger] order[b]]
            ==> order[a] < order[b]
}

/// Whether `order` holds each of the positions `0..n` exactly once.
pub open spec fn is_arrangement(order: Seq<int>, n: nat) -> bool {
    &&& order.len() == n
    &&& forall|a: int| 0 <= a < order.len() ==> 0 <= #[trigger] order[a] < n
    &&& forall|a: int, b: int|
        0 <= a < b < order.len() ==> #[trigger] order[a] != #[trigger] order[b]
}

/// The insertion point lies within the order; what stands before it is
/// before or equal to the key, what stands from it on comes after the key.
pub proof fn insertion_point_divides(keys: Seq<Seq<u8>>, order: Seq<int>, key: Seq<u8>)
    ensures
        0 <= insertion_point(keys, order, key) <= order.len(),
        insertion_point(keys, order, key) > 0 ==> bytes_le(
            keys[order[insertion_point(keys, order, key) - 1]],
            key,
        ),
        forall|a: int|
            insertion_point(keys, order, key) <= a < order.len() ==> !bytes_le(
                #[trigger] keys[order[a]],
                key,
            ),
    decreases order.len(),
{
    if order.len() > 0 && !bytes_le(keys[order.last()], key) {
        let shorter = order.drop_last();
        insertion_point_divides(keys, shorter, key);
        assert forall|a: int| insertion_point(keys, order, key) <= a < order.len() implies !bytes_le(
            #[trigger] keys[order[a]],
            key,
        ) by {
            if a < shorter.len() {
                assert(order[a] == shorter[a]);
            }
        }
    }
}

/// The order of the first `n` keys holds each of their positions once, never
/// goes down, and keeps equal keys as they stood.
pub proof fn stable_order_sorts(keys: Seq<Seq<u8>>, n: nat)
    requires
        n <= keys.len(),
    ensures
        is_arrangement(stable_order(keys, n), n),
        in_order(keys, stable_order(keys, n)),
        keeps_ties(keys, stable_order(keys, n)),
    decreases n,
{
    if n > 0 {
        let before = stable_order(keys, (n - 1) as nat);
        let key = keys[n - 1];
        let at = insertion_point(keys, before, key);
        let after = before.insert(at, n - 1);
        stable_order_sorts(keys, (n - 1) as nat);
        insertion_point_divides(keys, before, key);
        assert forall|a: int| 0 <= a < after.len() implies 0 <= #[trigger] after[a] < n by {
            if a < at {
                assert(after[a] == before[a]);
            } else if a > at {
                assert(after[a] == before[a - 1]);
            }
        }
        assert forall|a: int, b: int| 0 <= a < b < after.len() implies {
            &&& #[trigger] after[a] != #[trigger] after[b]
            &&& bytes_le(keys[after[a]], keys[after[b]])
            &&& keys[after[a]] == keys[after[b]] ==> after[a] < after[b]
        } by {
            let old_a = if a < at {
                a
            } else {
                a - 1
            };
            let old_b = if b < at {
                b
            } else {
                b - 1
            };
            if a == at {
                // The new key stands before what comes after it.
                assert(after[b] == before[b - 1]);
                assert(!bytes_le(keys[before[b - 1]], key));
                bytes_le_is_total(keys[before[b - 1]], key);
                if keys[after[a]] == keys[after[b]] {
                    bytes_le_is_reflexive(key);
                }
            } else if b == at {
                // What stands before the new key is before or equal to it.
                assert(after[a] == before[a]);
                assert(bytes_le(keys[before[at - 1]], key));
                if a < at - 1 {
                    assert(bytes_le(keys[before[a]], keys[before[at - 1]]));
                    bytes_le_is_transitive(keys[before[a]], keys[before[at - 1]], key);
                }
            } else {
                assert(after[a] == before[old_a]);
                assert(after[b] == before[old_b]);
                assert(old_a < old_b);
                assert(bytes_le(keys[before[old_a]], keys[before[old_b]]));
            }
        }
    }
}

/// The positions of the names, in the order of the names.
pub fn sort_order(names: &Vec<String>) -> (order: Vec<usize>)
    ensures
        order@.map_values(|at: usize| at as int) == sorted_order(names_bytes(names@)),
        order@.len() == names@.len(),
        forall|a: int| 0 <= a < order@.len() ==> #[trigger] order@[a] < names@.len(),
{
    let ghost keys = names_bytes(names@);
    let mut order: Vec<usize> = Vec::new();
    let mut n: usize = 0;
    assert(order@.map_values(|at: usize| at as int) =~= stable_order(keys, 0));
    while n < names.len()
        invariant
            n <= names.len(),
            keys == names_bytes(names@),
            order@.len() == n,
            order@.map_values(|at: usize| at as int) == stable_order(keys, n as nat),
            forall|a: int| 0 <= a < order@.len() ==> #[trigger] order@[a] < n,
        decreases names.len() - n,
    {
        let ghost before = order@.map_values(|at: usize| at as int);
        let mut at: usize = order.len();
        assert(before.take(at as int) =~= before);
        while at > 0 && !name_before_or_equal(&names[order[at - 1]], &names[n])
            invariant
                at <= order@.len(),
                n < names.len(),
                keys == names_bytes(names@),
                before == order@.map_values(|at: usize| at as int),
                forall|a: int| 0 <= a < order@.len() ==> #[trigger] order@[a] < n,
                insertion_point(keys, before, keys[n as int]) == insertion_point(
                    keys,
                    before.take(at as int),
                    keys[n as int],
                ),
            decreases at,
        {
            assert(before.take(at as int).last() == order@[at - 1]);
            assert(before.take(at as int).drop_last() =~= before.take(at - 1));
            at -= 1;
        }
        proof {
            if at > 0 {
                assert(before.take(at as int).last() == order@[at - 1]);
            }
        }
        order.insert(at, n);
        assert(order@.map_values(|at: usize| at as int) =~= before.insert(at as int, n as int));
        n += 1;
    }
    order
}

} // verus!
