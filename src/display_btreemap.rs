use std::cmp::Ordering;
use std::collections::btree_map;
use std::collections::BTreeMap;

use vstd::laws_cmp::*;
use vstd::prelude::*;
use vstd::std_specs::btree::*;
use vstd::std_specs::cmp::OrdSpec;
use vstd::std_specs::cmp::PartialOrdSpec;
use vstd::std_specs::iter::IteratorSpec;
use vstd::string::*;

use crate::context::Context;
use crate::display_slice::shown_count;
use crate::to_display::Displayer;
use crate::to_display::ToDisplay;

verus! {

/// Whether `entries` holds exactly the entries of `m`: each of its pairs is an entry of `m`,
/// and each key of `m` appears with its value.
pub open spec fn holds_entries<K, V>(entries: Seq<(K, V)>, m: Map<K, V>) -> bool {
    &&& forall|i: int|
        #![trigger entries[i]]
        0 <= i < entries.len() ==> m.contains_key(entries[i].0) && m[entries[i].0] == entries[i].1
    &&& forall|k: K| #[trigger] m.contains_key(k) ==> entries.contains((k, m[k]))
}

/// The entries of a map in ascending key order. There is one such sequence when the keys
/// obey the laws of their ordering (`ordered_entries_unique`).
pub open spec fn ordered_entries<K: Ord, V>(m: Map<K, V>) -> Seq<(K, V)> {
    choose|s: Seq<(K, V)>| keys_ascend(s) && holds_entries(s, m)
}

/// Whether every key and every value among `entries` is faithful.
pub open spec fn entries_faithful<K: ToDisplay, V: ToDisplay>(entries: Seq<(K, V)>) -> bool {
    forall|i: int|
        #![trigger entries[i]]
        0 <= i < entries.len() ==> entries[i].0.faithful() && entries[i].1.faithful()
}

/// The text of one entry: `key: value`, both under `context`.
pub open spec fn entry_text<K: ToDisplay, V: ToDisplay>(e: (K, V), context: Context) -> Seq<
    char,
> {
    e.0.shown(context) + ": "@ + e.1.shown(context)
}

/// The texts of `entries`, in order, separated by `, `.
pub open spec fn joined_entries<K: ToDisplay, V: ToDisplay>(
    entries: Seq<(K, V)>,
    context: Context,
) -> Seq<char>
    decreases entries.len(),
{
    if entries.len() == 0 {
        Seq::empty()
    } else if entries.len() == 1 {
        entry_text(entries[0], context)
    } else {
        joined_entries(entries.drop_last(), context) + ", "@ + entry_text(entries.last(), context)
    }
}

/// The text of a map with these entries: `{`, the first entries up to the cap separated by
/// `, `, then `, ...` if entries were left out, then `}`.
pub open spec fn map_text<K: ToDisplay, V: ToDisplay>(
    entries: Seq<(K, V)>,
    context: Context,
) -> Seq<char> {
    "{"@ + joined_entries(entries.take(shown_count(entries.len(), context) as int), context) + (
    if entries.len() > context.item_cap() {
        ", ..."@
    } else {
        Seq::empty()
    }) + "}"@
}

/// Displays a `BTreeMap<K, V>`; what `BTreeMap<K, V>::display()` returns.
pub type DisplayBTreeMap<'a, K, V> = Displayer<'a, BTreeMap<K, V>>;

/// Appends the text of a map under `context`. The entries are shown in ascending key order,
/// whatever order they were inserted in.
pub fn write_map<K: ToDisplay + Ord, V: ToDisplay>(
    map: &BTreeMap<K, V>,
    context: Context,
    out: &mut String,
)
    requires
        map.faithful(),
    ensures
        final(out)@ == old(out)@ + map_text(ordered_entries(map@), context),
        keys_ascend(ordered_entries(map@)),
        holds_entries(ordered_entries(map@), map@),
{
    let max_items = context.max_items();
    out.append("{");
    let ghost start = old(out)@ + "{"@;
    let ghost entries = ordered_entries(map@);
    let mut n: usize = 0;
    let mut more = false;
    let iter = map.iter();
    proof {
        lemma_iteration_order(map, iter);
    }
    for kv in it: iter
        invariant
            map.faithful(),
            entries == ordered_entries(map@),
            it.seq().unref() == entries,
            max_items as nat == context.item_cap(),
            n as nat == shown_count(it.index() as nat, context),
            more == (it.index() > context.item_cap()),
            out@ == start + joined_entries(entries.take(n as int), context),
    {
        let (k, v) = kv;
        if n < max_items {
            if n > 0 {
                out.append(", ");
            }
            assert((*k, *v) == entries[n as int]);
            assert(entries_faithful(entries));
            k.write_shown(context, out);
            out.append(": ");
            v.write_shown(context, out);
            proof {
                let next = entries.take(n + 1);
                assert(next.drop_last() =~= entries.take(n as int));
                if n == 0 {
                    assert(entries.take(0) =~= Seq::<(K, V)>::empty());
                }
                assert(out@ =~= start + joined_entries(next, context));
            }
            n = n + 1;
        } else {
            more = true;
        }
    }
    if more {
        out.append(", ...");
    }
    out.append("}");
    proof {
        assert(final(out)@ =~= old(out)@ + map_text(entries, context));
    }
}

impl<K: ToDisplay + Ord, V: ToDisplay> ToDisplay for BTreeMap<K, V> {
    open spec fn shown(&self, context: Context) -> Seq<char> {
        map_text(ordered_entries(self@), context)
    }

    open spec fn faithful(&self) -> bool {
        &&& key_obeys_cmp_spec::<K>()
        &&& entries_faithful(ordered_entries(self@))
    }

    fn write_shown(&self, context: Context, out: &mut String) {
        write_map(self, context, out);
    }
}

} // verus!

verus! {

/// Whether the keys of `entries` strictly ascend.
pub open spec fn keys_ascend<K: Ord, V>(entries: Seq<(K, V)>) -> bool {
    forall|i: int, j: int|
        0 <= i < j < entries.len() ==> (#[trigger] entries[i].0.cmp_spec(&entries[j].0)) is Less
}

proof fn lemma_less_laws<K: Ord>()
    requires
        obeys_cmp::<K>(),
    ensures
        forall|x: K| !((#[trigger] x.cmp_spec(&x)) is Less),
        forall|x: K, y: K, z: K|
            (#[trigger] x.cmp_spec(&y)) is Less && (#[trigger] y.cmp_spec(&z)) is Less ==> (
            x.cmp_spec(&z) is Less),
{
    reveal(obeys_cmp_ord);
    reveal(obeys_partial_cmp_spec_properties);
    assert forall|x: K| !((#[trigger] x.cmp_spec(&x)) is Less) by {
        assert(x.partial_cmp_spec(&x) == Some(x.cmp_spec(&x)));
        if x.cmp_spec(&x) is Less {
            assert(x.partial_cmp_spec(&x) == Some(Ordering::Less));
            assert(x.partial_cmp_spec(&x) == Some(Ordering::Greater));
        }
    }
    assert forall|x: K, y: K, z: K|
        (#[trigger] x.cmp_spec(&y)) is Less && (#[trigger] y.cmp_spec(&z)) is Less implies (
        x.cmp_spec(&z) is Less) by {
        assert(x.partial_cmp_spec(&y) == Some(x.cmp_spec(&y)));
        assert(y.partial_cmp_spec(&z) == Some(y.cmp_spec(&z)));
        assert(x.partial_cmp_spec(&z) == Some(x.cmp_spec(&z)));
        assert(x.partial_cmp_spec(&y) == Some(Ordering::Less));
        assert(y.partial_cmp_spec(&z) == Some(Ordering::Less));
    }
}

/// The sequence a map's iterator starts with, read without references, is its entries in
/// ascending key order.
proof fn lemma_iteration_order<K: Ord, V>(map: &BTreeMap<K, V>, iter: btree_map::Iter<K, V>)
    requires
        key_obeys_cmp_spec::<K>(),
        iter == spec_btree_map_iter(map),
        increasing_seq(iter.remaining().map_values(|kv: (&K, &V)| *kv.0)),
        IteratorSpec::initial_value_relation(&iter, &iter),
    ensures
        iter.remaining().unref() == ordered_entries(map@),
        keys_ascend(ordered_entries(map@)),
        holds_entries(ordered_entries(map@), map@),
{
    broadcast use group_btree_axioms;

    let v = iter.remaining();
    let s = v.unref();
    assert(obeys_cmp::<K>());
    let keys = v.map_values(|kv: (&K, &V)| *kv.0);
    assert(keys_ascend(s)) by {
        assert forall|i: int, j: int| 0 <= i < j < s.len() implies (#[trigger] s[i].0.cmp_spec(
            &s[j].0,
        )) is Less by {
            assert(keys[i] == s[i].0 && keys[j] == s[j].0);
        }
    }
    assert(holds_entries(s, map@)) by {
        assert forall|k: K| #[trigger] map@.contains_key(k) implies s.contains((k, map@[k])) by {
            assert(v.contains((&k, &map@[k])));
            let i = choose|i: int| 0 <= i < v.len() && v[i] == (&k, &map@[k]);
            assert(s[i] == (k, map@[k]));
        }
    }
    ordered_entries_unique(s, map@);
}

/// When keys obey the laws of their ordering, a sequence whose keys strictly ascend and that
/// holds exactly the entries of `m` is `ordered_entries(m)`: there is no other order.
pub proof fn ordered_entries_unique<K: Ord, V>(s: Seq<(K, V)>, m: Map<K, V>)
    requires
        obeys_cmp::<K>(),
        keys_ascend(s),
        holds_entries(s, m),
    ensures
        s == ordered_entries(m),
{
    let t = ordered_entries(m);
    assert(keys_ascend(t) && holds_entries(t, m));
    assert forall|i: int| 0 <= i < s.len() implies t.contains(#[trigger] s[i]) by {
        assert(t.contains((s[i].0, m[s[i].0])));
    }
    assert forall|j: int| 0 <= j < t.len() implies s.contains(#[trigger] t[j]) by {
        assert(s.contains((t[j].0, m[t[j].0])));
    }
    lemma_ascending_unique(s, t);
}

/// Two maps with the same contents render alike under any context, whatever order their
/// entries were inserted in: the text lists the entries in ascending key order.
pub proof fn maps_with_same_contents_render_alike<K: ToDisplay + Ord, V: ToDisplay>(
    m1: &BTreeMap<K, V>,
    m2: &BTreeMap<K, V>,
    context: Context,
)
    requires
        m1@ == m2@,
    ensures
        m1.shown(context) == m2.shown(context),
        m1.shown(context) == map_text(ordered_entries(m1@), context),
{
}

/// Two sequences whose keys strictly ascend and that hold the same entries are equal.
proof fn lemma_ascending_unique<K: Ord, V>(s1: Seq<(K, V)>, s2: Seq<(K, V)>)
    requires
        obeys_cmp::<K>(),
        keys_ascend(s1),
        keys_ascend(s2),
        forall|i: int| 0 <= i < s1.len() ==> s2.contains(#[trigger] s1[i]),
        forall|j: int| 0 <= j < s2.len() ==> s1.contains(#[trigger] s2[j]),
    ensures
        s1 == s2,
    decreases s1.len(),
{
    lemma_less_laws::<K>();
    if s1.len() == 0 {
        if s2.len() > 0 {
            assert(s1.contains(s2[0]));
        }
        assert(s1 =~= s2);
    } else {
        assert(s2.contains(s1[0]));
        let a = s1[0];
        let b = s2[0];
        assert(s1.contains(b));
        let j = choose|j: int| 0 <= j < s2.len() && s2[j] == a;
        let i = choose|i: int| 0 <= i < s1.len() && s1[i] == b;
        if a != b {
            assert(j > 0);
            assert(i > 0);
            assert(s2[0].0.cmp_spec(&s2[j].0) is Less);
            assert(s1[0].0.cmp_spec(&s1[i].0) is Less);
            assert(false);
        }
        let t1 = s1.drop_first();
        let t2 = s2.drop_first();
        assert forall|i: int| 0 <= i < t1.len() implies t2.contains(#[trigger] t1[i]) by {
            assert(s1[i + 1] == t1[i]);
            assert(s2.contains(s1[i + 1]));
            let k = choose|k: int| 0 <= k < s2.len() && s2[k] == s1[i + 1];
            assert(s1[0].0.cmp_spec(&s1[i + 1].0) is Less);
            assert(k != 0);
            assert(t2[k - 1] == t1[i]);
        }
        assert forall|j: int| 0 <= j < t2.len() implies t1.contains(#[trigger] t2[j]) by {
            assert(s2[j + 1] == t2[j]);
            assert(s1.contains(s2[j + 1]));
            let k = choose|k: int| 0 <= k < s1.len() && s1[k] == s2[j + 1];
            assert(s2[0].0.cmp_spec(&s2[j + 1].0) is Less);
            assert(k != 0);
            assert(t1[k - 1] == t2[j]);
        }
        assert forall|x: int, y: int| 0 <= x < y < t1.len() implies (#[trigger] t1[x].0.cmp_spec(
            &t1[y].0,
        )) is Less by {
            assert(s1[x + 1] == t1[x] && s1[y + 1] == t1[y]);
        }
        assert forall|x: int, y: int| 0 <= x < y < t2.len() implies (#[trigger] t2[x].0.cmp_spec(
            &t2[y].0,
        )) is Less by {
            assert(s2[x + 1] == t2[x] && s2[y + 1] == t2[y]);
        }
        lemma_ascending_unique(t1, t2);
        assert(s1.len() == s2.len());
        assert forall|k: int| 0 <= k < s1.len() implies s1[k] == s2[k] by {
            if k > 0 {
                assert(s1[k] == t1[k - 1] && s2[k] == t2[k - 1]);
            }
        }
        assert(s1 =~= s2);
    }
}

} // verus!
