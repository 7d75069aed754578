//! The canonical order of request parameters: by key, bytewise, keeping
//! entries with equal keys in the order in which they were given.

use vstd::prelude::*;
use vstd::string::*;
use vstd::utf8::*;

verus! {

/// A request parameter in contracts: key and value as texts.
pub type Param = (Seq<char>, Seq<char>);

/// What a list of owned parameters stands for.
pub open spec fn params_view(params: Seq<(String, String)>) -> Seq<Param> {
    Seq::new(params.len(), |i: int| (params[i].0@, params[i].1@))
}

/// Lexicographic order on byte strings; a proper prefix comes first.
pub open spec fn bytes_le(a: Seq<u8>, b: Seq<u8>) -> bool
    decreases a.len(),
{
    if a.len() == 0 {
        true
    } else if b.len() == 0 {
        false
    } else if a[0] != b[0] {
        a[0] < b[0]
    } else {
        bytes_le(a.drop_first(), b.drop_first())
    }
}

/// The order of keys: that of their UTF-8 bytes.
pub open spec fn key_le(a: Seq<char>, b: Seq<char>) -> bool {
    bytes_le(encode_utf8(a), encode_utf8(b))
}

/// Every byte string stands before itself.
pub proof fn lemma_bytes_le_reflexive(a: Seq<u8>)
    ensures
        bytes_le(a, a),
    decreases a.len(),
{
    if a.len() > 0 {
        lemma_bytes_le_reflexive(a.drop_first());
    }
}

/// Of two byte strings one stands before the other.
pub proof fn lemma_bytes_le_total(a: Seq<u8>, b: Seq<u8>)
    ensures
        bytes_le(a, b) || bytes_le(b, a),
    decreases a.len(),
{
    if a.len() > 0 && b.len() > 0 && a[0] == b[0] {
        lemma_bytes_le_total(a.drop_first(), b.drop_first());
    }
}

/// Two byte strings that stand before each other are the same.
pub proof fn lemma_bytes_le_antisymmetric(a: Seq<u8>, b: Seq<u8>)
    requires
        bytes_le(a, b),
        bytes_le(b, a),
    ensures
        a == b,
    decreases a.len(),
{
    if a.len() == 0 || b.len() == 0 {
        assert(a =~= b);
    } else {
        lemma_bytes_le_antisymmetric(a.drop_first(), b.drop_first());
        assert(a =~= seq![a[0]] + a.drop_first());
        assert(b =~= seq![b[0]] + b.drop_first());
    }
}

/// The order of byte strings is transitive.
pub proof fn lemma_bytes_le_transitive(a: Seq<u8>, b: Seq<u8>, c: Seq<u8>)
    requires
        bytes_le(a, b),
        bytes_le(b, c),
    ensures
        bytes_le(a, c),
    decreases a.len(),
{
    if a.len() > 0 && b.len() > 0 && c.len() > 0 && a[0] == b[0] && b[0] == c[0] {
        lemma_bytes_le_transitive(a.drop_first(), b.drop_first(), c.drop_first());
    }
}

/// The key order is a total order on texts.
pub proof fn lemma_key_le_is_total_order(a: Seq<char>, b: Seq<char>, c: Seq<char>)
    ensures
        key_le(a, a),
        key_le(a, b) || key_le(b, a),
        key_le(a, b) && key_le(b, a) ==> a == b,
        key_le(a, b) && key_le(b, c) ==> key_le(a, c),
{
    lemma_bytes_le_reflexive(encode_utf8(a));
    lemma_bytes_le_total(encode_utf8(a), encode_utf8(b));
    if key_le(a, b) && key_le(b, a) {
        lemma_bytes_le_antisymmetric(encode_utf8(a), encode_utf8(b));
        encode_utf8_decode_utf8(a);
        encode_utf8_decode_utf8(b);
    }
    if key_le(a, b) && key_le(b, c) {
        lemma_bytes_le_transitive(encode_utf8(a), encode_utf8(b), encode_utf8(c));
    }
}

/// The keys never descend.
pub open spec fn ordered_by_key(params: Seq<Param>) -> bool {
    forall|i: int, j: int| 0 <= i < j < params.len() ==> key_le(params[i].0, params[j].0)
}

/// The entries under one key, in their order.
pub open spec fn entries_with_key(params: Seq<Param>, key: Seq<char>) -> Seq<Param> {
    params.filter(|p: Param| p.0 == key)
}

/// Under every key both lists hold the same entries in the same order: each
/// is a rearrangement of the other that never lets one entry overtake
/// another of the same key.
pub open spec fn same_entries_per_key(a: Seq<Param>, b: Seq<Param>) -> bool {
    forall|key: Seq<char>| #[trigger] entries_with_key(a, key) == entries_with_key(b, key)
}

/// `p` put into an ordered list behind the last entry whose key does not
/// exceed its own.
pub open spec fn insert_sorted(sorted: Seq<Param>, p: Param) -> Seq<Param>
    decreases sorted.len(),
{
    if sorted.len() == 0 {
        seq![p]
    } else if key_le(sorted.last().0, p.0) {
        sorted.push(p)
    } else {
        insert_sorted(sorted.drop_last(), p).push(sorted.last())
    }
}

/// The parameters in canonical order.
pub open spec fn sorted_params(params: Seq<Param>) -> Seq<Param>
    decreases params.len(),
{
    if params.len() == 0 {
        Seq::empty()
    } else {
        insert_sorted(sorted_params(params.drop_last()), params.last())
    }
}

proof fn lemma_entries_with_key_push(params: Seq<Param>, p: Param, key: Seq<char>)
    ensures
        entries_with_key(params.push(p), key) == if p.0 == key {
            entries_with_key(params, key).push(p)
        } else {
            entries_with_key(params, key)
        },
{
    reveal(Seq::filter);
    assert(params.push(p).drop_last() =~= params);
}

proof fn lemma_insert_sorted(sorted: Seq<Param>, p: Param)
    requires
        ordered_by_key(sorted),
    ensures
        ordered_by_key(insert_sorted(sorted, p)),
        insert_sorted(sorted, p).len() == sorted.len() + 1,
        forall|i: int|
            0 <= i < insert_sorted(sorted, p).len() ==> (#[trigger] insert_sorted(sorted, p)[i]
                == p || sorted.contains(insert_sorted(sorted, p)[i])),
        forall|key: Seq<char>| #[trigger]
            entries_with_key(insert_sorted(sorted, p), key) == if p.0 == key {
                entries_with_key(sorted, key).push(p)
            } else {
                entries_with_key(sorted, key)
            },
    decreases sorted.len(),
{
    let out = insert_sorted(sorted, p);
    if sorted.len() == 0 {
        assert forall|key: Seq<char>| #[trigger]
            entries_with_key(out, key) == if p.0 == key {
                entries_with_key(sorted, key).push(p)
            } else {
                entries_with_key(sorted, key)
            } by {
            assert(out =~= sorted.push(p));
            lemma_entries_with_key_push(sorted, p, key);
        }
    } else if key_le(sorted.last().0, p.0) {
        assert forall|i: int, j: int| 0 <= i < j < out.len() implies key_le(out[i].0, out[j].0) by {
            if j == sorted.len() {
                if i < sorted.len() - 1 {
                    lemma_key_le_is_total_order(sorted[i].0, sorted.last().0, p.0);
                }
            }
        }
        assert forall|i: int| 0 <= i < out.len() implies (#[trigger] out[i] == p
            || sorted.contains(out[i])) by {
            if i < sorted.len() {
                assert(sorted[i] == out[i]);
            }
        }
        assert forall|key: Seq<char>| #[trigger]
            entries_with_key(out, key) == if p.0 == key {
                entries_with_key(sorted, key).push(p)
            } else {
                entries_with_key(sorted, key)
            } by {
            lemma_entries_with_key_push(sorted, p, key);
        }
    } else {
        let front = sorted.drop_last();
        let last = sorted.last();
        let inner = insert_sorted(front, p);
        lemma_insert_sorted(front, p);
        lemma_key_le_is_total_order(last.0, p.0, p.0);
        assert(key_le(p.0, last.0));
        assert forall|i: int| 0 <= i < out.len() implies (#[trigger] out[i] == p
            || sorted.contains(out[i])) by {
            if i < inner.len() {
                if inner[i] != p {
                    assert(front.contains(inner[i]));
                    let w = choose|w: int| 0 <= w < front.len() && front[w] == inner[i];
                    assert(sorted[w] == inner[i]);
                }
            } else {
                assert(sorted[sorted.len() - 1] == out[i]);
            }
        }
        assert forall|i: int, j: int| 0 <= i < j < out.len() implies key_le(out[i].0, out[j].0) by {
            if j == inner.len() {
                if inner[i] != p {
                    assert(front.contains(inner[i]));
                    let w = choose|w: int| 0 <= w < front.len() && front[w] == inner[i];
                    assert(sorted[w] == inner[i]);
                    assert(key_le(sorted[w].0, sorted[sorted.len() - 1].0));
                }
            } else {
                assert(key_le(inner[i].0, inner[j].0));
            }
        }
        assert forall|key: Seq<char>| #[trigger]
            entries_with_key(out, key) == if p.0 == key {
                entries_with_key(sorted, key).push(p)
            } else {
                entries_with_key(sorted, key)
            } by {
            lemma_entries_with_key_push(inner, last, key);
            lemma_entries_with_key_push(front, last, key);
            assert(front.push(last) =~= sorted);
            lemma_key_le_is_total_order(last.0, last.0, last.0);
            assert(last.0 != p.0);
        }
    }
}

/// The canonical order is ordered by key, and under each key it keeps the
/// entries that were given, in the order in which they were given.
pub proof fn lemma_sorted_params(params: Seq<Param>)
    ensures
        ordered_by_key(sorted_params(params)),
        sorted_params(params).len() == params.len(),
        same_entries_per_key(sorted_params(params), params),
    decreases params.len(),
{
    if params.len() == 0 {
        assert(sorted_params(params) =~= params);
    } else {
        let front = params.drop_last();
        lemma_sorted_params(front);
        lemma_insert_sorted(sorted_params(front), params.last());
        assert forall|key: Seq<char>| #[trigger]
            entries_with_key(sorted_params(params), key) == entries_with_key(params, key) by {
            assert(entries_with_key(sorted_params(front), key) == entries_with_key(front, key));
            lemma_entries_with_key_push(front, params.last(), key);
            assert(front.push(params.last()) =~= params);
        }
    }
}

proof fn lemma_entry_found_under_its_key(params: Seq<Param>, i: int)
    requires
        0 <= i < params.len(),
    ensures
        entries_with_key(params, params[i].0).len() > 0,
    decreases params.len(),
{
    let key = params[i].0;
    lemma_entries_with_key_push(params.drop_last(), params.last(), key);
    assert(params.drop_last().push(params.last()) =~= params);
    if i < params.len() - 1 {
        lemma_entry_found_under_its_key(params.drop_last(), i);
    }
}

proof fn lemma_key_found_in_list(params: Seq<Param>, key: Seq<char>)
    requires
        entries_with_key(params, key).len() > 0,
    ensures
        exists|i: int| 0 <= i < params.len() && #[trigger] params[i].0 == key,
    decreases params.len(),
{
    if params.len() == 0 {
        reveal(Seq::filter);
    } else {
        lemma_entries_with_key_push(params.drop_last(), params.last(), key);
        assert(params.drop_last().push(params.last()) =~= params);
        if params.last().0 == key {
            assert(params[params.len() - 1].0 == key);
        } else {
            lemma_key_found_in_list(params.drop_last(), key);
            let i = choose|i: int|
                0 <= i < params.drop_last().len() && #[trigger] params.drop_last()[i].0 == key;
            assert(params[i].0 == key);
        }
    }
}

/// Two lists that are ordered by key and hold the same entries under every
/// key are one and the same list.
pub proof fn lemma_ordered_list_is_determined(a: Seq<Param>, b: Seq<Param>)
    requires
        ordered_by_key(a),
        ordered_by_key(b),
        same_entries_per_key(a, b),
    ensures
        a == b,
    decreases a.len(),
{
    if a.len() == 0 {
        if b.len() > 0 {
            lemma_entry_found_under_its_key(b, 0);
            assert(entries_with_key(a, b[0].0) == entries_with_key(b, b[0].0));
            lemma_key_found_in_list(a, b[0].0);
        }
        assert(a =~= b);
    } else {
        let ka = a.last().0;
        lemma_entry_found_under_its_key(a, a.len() - 1);
        assert(entries_with_key(a, ka) == entries_with_key(b, ka));
        lemma_key_found_in_list(b, ka);
        let kb = b.last().0;
        lemma_entry_found_under_its_key(b, b.len() - 1);
        assert(entries_with_key(a, kb) == entries_with_key(b, kb));
        lemma_key_found_in_list(a, kb);
        let ia = choose|i: int| 0 <= i < a.len() && #[trigger] a[i].0 == kb;
        let ib = choose|i: int| 0 <= i < b.len() && #[trigger] b[i].0 == ka;
        lemma_key_le_is_total_order(ka, kb, ka);
        lemma_key_le_is_total_order(kb, ka, kb);
        assert(key_le(kb, ka)) by {
            if ia < a.len() - 1 {
                assert(key_le(a[ia].0, a[a.len() - 1].0));
            }
        }
        assert(key_le(ka, kb)) by {
            if ib < b.len() - 1 {
                assert(key_le(b[ib].0, b[b.len() - 1].0));
            }
        }
        assert(ka == kb);
        let fa = a.drop_last();
        let fb = b.drop_last();
        assert(fa.push(a.last()) =~= a);
        assert(fb.push(b.last()) =~= b);
        lemma_entries_with_key_push(fa, a.last(), ka);
        lemma_entries_with_key_push(fb, b.last(), ka);
        assert(entries_with_key(a, ka).last() == a.last());
        assert(entries_with_key(b, ka).last() == b.last());
        assert(a.last() == b.last());
        assert forall|key: Seq<char>| #[trigger]
            entries_with_key(fa, key) == entries_with_key(fb, key) by {
            lemma_entries_with_key_push(fa, a.last(), key);
            lemma_entries_with_key_push(fb, b.last(), key);
            assert(entries_with_key(a, key) == entries_with_key(b, key));
            if key == ka {
                assert(entries_with_key(fa, key) =~= entries_with_key(a, key).drop_last());
                assert(entries_with_key(fb, key) =~= entries_with_key(b, key).drop_last());
            }
        }
        assert(ordered_by_key(fa)) by {
            assert forall|i: int, j: int| 0 <= i < j < fa.len() implies key_le(
                fa[i].0,
                fa[j].0,
            ) by {
                assert(key_le(a[i].0, a[j].0));
            }
        }
        assert(ordered_by_key(fb)) by {
            assert forall|i: int, j: int| 0 <= i < j < fb.len() implies key_le(
                fb[i].0,
                fb[j].0,
            ) by {
                assert(key_le(b[i].0, b[j].0));
            }
        }
        lemma_ordered_list_is_determined(fa, fb);
    }
}

/// Rearranging the parameters does not change their canonical order, as
/// long as no entry overtakes another of the same key.
pub proof fn lemma_sorted_params_ignores_order(a: Seq<Param>, b: Seq<Param>)
    requires
        same_entries_per_key(a, b),
    ensures
        sorted_params(a) == sorted_params(b),
{
    lemma_sorted_params(a);
    lemma_sorted_params(b);
    assert forall|key: Seq<char>| #[trigger]
        entries_with_key(sorted_params(a), key) == entries_with_key(sorted_params(b), key) by {
        assert(entries_with_key(sorted_params(a), key) == entries_with_key(a, key));
        assert(entries_with_key(sorted_params(b), key) == entries_with_key(b, key));
        assert(entries_with_key(a, key) == entries_with_key(b, key));
    }
    lemma_ordered_list_is_determined(sorted_params(a), sorted_params(b));
}

/// No key occurs twice.
pub open spec fn distinct_keys(params: Seq<Param>) -> bool {
    forall|i: int, j: int| 0 <= i < j < params.len() ==> params[i].0 != params[j].0
}

/// Both lists hold the same parameters, each key once: one is a
/// rearrangement of the other.
pub open spec fn same_parameter_set(a: Seq<Param>, b: Seq<Param>) -> bool {
    &&& distinct_keys(a)
    &&& distinct_keys(b)
    &&& forall|p: Param| a.contains(p) <==> b.contains(p)
}

proof fn lemma_entries_of_distinct_keys(params: Seq<Param>, key: Seq<char>)
    requires
        distinct_keys(params),
    ensures
        (forall|i: int| 0 <= i < params.len() ==> params[i].0 != key) ==> entries_with_key(
            params,
            key,
        ) == Seq::<Param>::empty(),
        forall|i: int|
            0 <= i < params.len() && params[i].0 == key ==> entries_with_key(params, key)
                == seq![#[trigger] params[i]],
    decreases params.len(),
{
    if params.len() == 0 {
        reveal(Seq::filter);
        assert(entries_with_key(params, key) =~= Seq::<Param>::empty());
    } else {
        let front = params.drop_last();
        let last = params.last();
        assert(front.push(last) =~= params);
        lemma_entries_with_key_push(front, last, key);
        assert(distinct_keys(front)) by {
            assert forall|i: int, j: int| 0 <= i < j < front.len() implies front[i].0
                != front[j].0 by {
                assert(params[i].0 != params[j].0);
            }
        }
        lemma_entries_of_distinct_keys(front, key);
        if last.0 == key {
            assert forall|i: int| 0 <= i < front.len() implies front[i].0 != key by {
                assert(params[i].0 != params[params.len() - 1].0);
            }
            assert(entries_with_key(params, key) =~= seq![last]);
        } else {
            assert forall|i: int| 0 <= i < params.len() && params[i].0 == key implies entries_with_key(
                params,
                key,
            ) == seq![#[trigger] params[i]] by {
                assert(front[i] == params[i]);
            }
            if forall|i: int| 0 <= i < params.len() ==> params[i].0 != key {
                assert forall|i: int| 0 <= i < front.len() implies front[i].0 != key by {
                    assert(params[i].0 != key);
                }
            }
        }
    }
}

/// Two lists of the same parameters, each key once, hold the same entries
/// under every key.
pub proof fn lemma_parameter_set_entries(a: Seq<Param>, b: Seq<Param>)
    requires
        same_parameter_set(a, b),
    ensures
        same_entries_per_key(a, b),
{
    assert forall|key: Seq<char>| #[trigger]
        entries_with_key(a, key) == entries_with_key(b, key) by {
        lemma_entries_of_distinct_keys(a, key);
        lemma_entries_of_distinct_keys(b, key);
        if exists|i: int| 0 <= i < a.len() && a[i].0 == key {
            let i = choose|i: int| 0 <= i < a.len() && a[i].0 == key;
            assert(a.contains(a[i]));
            assert(b.contains(a[i]));
            let j = choose|j: int| 0 <= j < b.len() && b[j] == a[i];
            assert(entries_with_key(a, key) == seq![a[i]]);
            assert(entries_with_key(b, key) == seq![b[j]]);
        } else if exists|j: int| 0 <= j < b.len() && b[j].0 == key {
            let j = choose|j: int| 0 <= j < b.len() && b[j].0 == key;
            assert(b.contains(b[j]));
            assert(a.contains(b[j]));
            let i = choose|i: int| 0 <= i < a.len() && a[i] == b[j];
            assert(a[i].0 == key);
        }
    }
}

/// Whether key `a` may stand before key `b`.
pub fn keys_in_order(a: &str, b: &str) -> (in_order: bool)
    ensures
        in_order == key_le(a@, b@),
{
    let x = a.as_bytes();
    let y = b.as_bytes();
    let mut i: usize = 0;
    assert(x@.skip(0) =~= x@ && y@.skip(0) =~= y@);
    while i < x.len() && i < y.len()
        invariant
            i <= x@.len(),
            i <= y@.len(),
            x@ == encode_utf8(a@),
            y@ == encode_utf8(b@),
            bytes_le(x@, y@) == bytes_le(x@.skip(i as int), y@.skip(i as int)),
        decreases x@.len() - i,
    {
        assert(x@.skip(i as int)[0] == x@[i as int]);
        assert(y@.skip(i as int)[0] == y@[i as int]);
        if x[i] != y[i] {
            return x[i] < y[i];
        }
        assert(x@.skip(i as int).drop_first() =~= x@.skip(i + 1));
        assert(y@.skip(i as int).drop_first() =~= y@.skip(i + 1));
        i += 1;
    }
    x.len() <= y.len()
}

/// Puts the parameters into canonical order.
pub fn sort_params(params: &Vec<(String, String)>) -> (sorted: Vec<(String, String)>)
    ensures
        params_view(sorted@) == sorted_params(params_view(params@)),
{
    let mut sorted: Vec<(String, String)> = Vec::new();
    let n = params.len();
    assert(params_view(params@).take(0) =~= Seq::<Param>::empty());
    assert(params_view(sorted@) =~= Seq::<Param>::empty());
    for k in 0..n
        invariant
            n == params@.len(),
            params_view(sorted@) == sorted_params(params_view(params@).take(k as int)),
    {
        let ghost all = params_view(params@);
        let ghost before = params_view(sorted@);
        let ghost p: Param = all[k as int];
        let mut pos: usize = sorted.len();
        assert(before.take(pos as int) =~= before && before.skip(pos as int) =~= Seq::<
            Param,
        >::empty());
        assert(insert_sorted(before, p) + Seq::<Param>::empty() =~= insert_sorted(before, p));
        let mut found = false;
        while pos > 0 && !found
            invariant
                pos <= sorted@.len(),
                before == params_view(sorted@),
                p == (params@[k as int].0@, params@[k as int].1@),
                0 <= k < params@.len(),
                insert_sorted(before, p) == insert_sorted(before.take(pos as int), p)
                    + before.skip(pos as int),
                found ==> pos > 0 && key_le(before[pos - 1].0, p.0),
            decreases pos + (if found { 0int } else { 1int }),
        {
            if keys_in_order(sorted[pos - 1].0.as_str(), params[k].0.as_str()) {
                found = true;
            } else {
                proof {
                    let head = before.take(pos as int);
                    assert(head.last() == before[pos - 1]);
                    assert(head.drop_last() =~= before.take(pos - 1));
                    assert(insert_sorted(head, p) == insert_sorted(before.take(pos - 1), p).push(
                        before[pos - 1],
                    ));
                    assert(insert_sorted(before.take(pos - 1), p).push(before[pos - 1])
                        + before.skip(pos as int) =~= insert_sorted(before.take(pos - 1), p)
                        + before.skip(pos - 1));
                }
                pos -= 1;
            }
        }
        proof {
            let head = before.take(pos as int);
            if pos > 0 {
                assert(head.last() == before[pos - 1]);
            }
            assert(insert_sorted(head, p) == head.push(p));
        }
        sorted.insert(pos, (params[k].0.clone(), params[k].1.clone()));
        proof {
            assert(params_view(sorted@) =~= before.take(pos as int).push(p) + before.skip(
                pos as int,
            ));
            assert(all.take(k + 1).drop_last() =~= all.take(k as int));
            assert(all.take(k + 1).last() == p);
        }
    }
    assert(params_view(params@).take(n as int) =~= params_view(params@));
    sorted
}

} // verus!
