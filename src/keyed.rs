use vstd::prelude::*;
use crate::text::same_text;

verus! {

/// A value stored under a text key.
#[derive(Debug)]
pub struct Keyed<V> {
    pub key: String,
    pub value: V,
}

/// The value stored under `key`, looking from position `i` on.
pub open spec fn value_from<V>(es: Seq<Keyed<V>>, key: Seq<char>, i: int) -> Option<V>
    decreases es.len() - i,
{
    if i < 0 || i >= es.len() {
        None
    } else if es[i].key@ == key {
        Some(es[i].value)
    } else {
        value_from(es, key, i + 1)
    }
}

/// The value stored under `key`.
pub open spec fn value_of<V>(es: Seq<Keyed<V>>, key: Seq<char>) -> Option<V> {
    value_from(es, key, 0)
}

/// No key occurs twice.
pub open spec fn unique_keys<V>(es: Seq<Keyed<V>>) -> bool {
    forall|i: int, j: int| 0 <= i < j < es.len() ==> #[trigger] es[i].key@ != #[trigger] es[j].key@
}

/// `after` is `before` with `value` under `key` and every other key unchanged.
pub open spec fn put_from<V>(after: Seq<Keyed<V>>, before: Seq<Keyed<V>>, key: Seq<char>, value: V) -> bool {
    &&& value_of(after, key) == Some(value)
    &&& forall|k: Seq<char>| k != key ==> #[trigger] value_of(after, k) == value_of(before, k)
}

/// The value stored under `key`.
pub fn find<'a, V>(es: &'a Vec<Keyed<V>>, key: &str) -> (r: Option<&'a V>)
    ensures
        match r {
            Some(v) => value_of(es@, key@) == Some(*v),
            None => value_of(es@, key@) is None,
        },
{
    let mut i: usize = 0;
    while i < es.len()
        invariant
            i <= es@.len(),
            value_from(es@, key@, i as int) == value_of(es@, key@),
        decreases es.len() - i,
    {
        if same_text(es[i].key.as_str(), key) {
            assert(value_of(es@, key@) == Some(es@[i as int].value));
            return Some(&es[i].value);
        }
        i = i + 1;
    }
    None
}

/// Stores `value` under `key`, replacing what was there.
pub fn put<V>(es: &mut Vec<Keyed<V>>, key: String, value: V)
    requires
        unique_keys(old(es)@),
    ensures
        unique_keys(final(es)@),
        put_from(final(es)@, old(es)@, key@, value),
{
    let ghost before = es@;
    let mut i: usize = 0;
    while i < es.len()
        invariant
            es@ == before,
            before == old(es)@,
            unique_keys(before),
            i <= before.len(),
            forall|j: int| 0 <= j < i ==> #[trigger] before[j].key@ != key@,
        decreases es.len() - i,
    {
        if same_text(es[i].key.as_str(), key.as_str()) {
            let _previous = es.remove(i);
            es.insert(i, Keyed { key, value });
            proof {
                assert(es@[i as int].value == value);
                lemma_value_after_replace(before, es@, i as int, key@);
            }
            return;
        }
        i = i + 1;
    }
    let ghost mid = es@;
    es.push(Keyed { key, value });
    proof {
        lemma_value_after_push(mid, es@, key@);
    }
}

proof fn lemma_value_from_same<V>(a: Seq<Keyed<V>>, b: Seq<Keyed<V>>, key: Seq<char>, i: int, stop: int)
    requires
        0 <= i <= stop <= a.len(),
        stop <= b.len(),
        forall|j: int| 0 <= j < stop ==> #[trigger] a[j] == b[j],
        value_from(a, key, stop) == value_from(b, key, stop),
    ensures
        value_from(a, key, i) == value_from(b, key, i),
    decreases stop - i,
{
    if i < stop {
        lemma_value_from_same(a, b, key, i + 1, stop);
    }
}

proof fn lemma_value_after_replace<V>(before: Seq<Keyed<V>>, after: Seq<Keyed<V>>, i: int, key: Seq<char>)
    requires
        0 <= i < before.len(),
        after.len() == before.len(),
        before[i].key@ == key,
        after[i].key@ == key,
        forall|j: int| 0 <= j < before.len() && j != i ==> #[trigger] after[j] == before[j],
        forall|j: int| 0 <= j < i ==> #[trigger] before[j].key@ != key,
        forall|x: int, y: int|
            0 <= x < y < before.len() ==> #[trigger] before[x].key@ != #[trigger] before[y].key@,
    ensures
        value_from(after, key, 0) == Some(after[i].value),
        forall|k: Seq<char>| k != key ==> #[trigger] value_from(after, k, 0) == value_from(before, k, 0),
        forall|x: int, y: int|
            0 <= x < y < after.len() ==> #[trigger] after[x].key@ != #[trigger] after[y].key@,
{
    assert forall|k: Seq<char>| k != key implies #[trigger] value_from(after, k, 0) == value_from(
        before,
        k,
        0,
    ) by {
        assert(value_from(after, k, i) == value_from(after, k, i + 1));
        assert(value_from(before, k, i) == value_from(before, k, i + 1));
        lemma_value_from_tail(before, after, k, i + 1);
        lemma_value_from_same(before, after, k, 0, i);
    }
    assert forall|j: int| 0 <= j < i implies #[trigger] after[j].key@ != key by {
        assert(after[j] == before[j]);
    }
    lemma_value_from_prefix_miss(after, key, 0, i);
    assert(value_from(after, key, i) == Some(after[i].value));
    assert forall|x: int, y: int|
        0 <= x < y < after.len() implies #[trigger] after[x].key@ != #[trigger] after[y].key@ by {
        assert(before[x].key@ != before[y].key@);
    }
}

proof fn lemma_value_from_tail<V>(a: Seq<Keyed<V>>, b: Seq<Keyed<V>>, key: Seq<char>, i: int)
    requires
        0 <= i <= a.len(),
        a.len() == b.len(),
        forall|j: int| i <= j < a.len() ==> #[trigger] a[j] == b[j],
    ensures
        value_from(a, key, i) == value_from(b, key, i),
    decreases a.len() - i,
{
    if i < a.len() {
        lemma_value_from_tail(a, b, key, i + 1);
    }
}

proof fn lemma_value_after_push<V>(before: Seq<Keyed<V>>, after: Seq<Keyed<V>>, key: Seq<char>)
    requires
        after.len() == before.len() + 1,
        forall|j: int| 0 <= j < before.len() ==> #[trigger] after[j] == before[j],
        after.last().key@ == key,
        forall|j: int| 0 <= j < before.len() ==> #[trigger] before[j].key@ != key,
        forall|x: int, y: int|
            0 <= x < y < before.len() ==> #[trigger] before[x].key@ != #[trigger] before[y].key@,
    ensures
        value_from(after, key, 0) == Some(after.last().value),
        forall|k: Seq<char>| k != key ==> #[trigger] value_from(after, k, 0) == value_from(before, k, 0),
        forall|x: int, y: int|
            0 <= x < y < after.len() ==> #[trigger] after[x].key@ != #[trigger] after[y].key@,
{
    let n = before.len() as int;
    assert(value_from(after, key, n) == Some(after.last().value));
    assert forall|j: int| 0 <= j < n implies #[trigger] after[j].key@ != key by {
        assert(after[j] == before[j]);
    }
    lemma_value_from_prefix_miss(after, key, 0, n);
    assert forall|k: Seq<char>| k != key implies #[trigger] value_from(after, k, 0) == value_from(
        before,
        k,
        0,
    ) by {
        assert(value_from(after, k, n + 1) is None);
        assert(value_from(after, k, n) is None);
        assert(value_from(before, k, n) is None);
        lemma_value_from_same(after, before, k, 0, n);
    }
    assert forall|x: int, y: int|
        0 <= x < y < after.len() implies #[trigger] after[x].key@ != #[trigger] after[y].key@ by {
        if y < n {
            assert(before[x].key@ != before[y].key@);
        } else {
            assert(before[x].key@ != key);
        }
    }
}

proof fn lemma_value_from_prefix_miss<V>(es: Seq<Keyed<V>>, key: Seq<char>, i: int, stop: int)
    requires
        0 <= i <= stop <= es.len(),
        forall|j: int| 0 <= j < stop ==> #[trigger] es[j].key@ != key,
    ensures
        value_from(es, key, i) == value_from(es, key, stop),
    decreases stop - i,
{
    if i < stop {
        lemma_value_from_prefix_miss(es, key, i + 1, stop);
    }
}

/// Appending an entry leaves every key that was already present alone, and
/// adds the new key when it was absent.
pub proof fn lemma_value_after_append<V>(s: Seq<Keyed<V>>, e: Keyed<V>, k: Seq<char>)
    ensures
        value_of(s.push(e), k) == match value_of(s, k) {
            Some(v) => Some(v),
            None => if e.key@ == k {
                Some(e.value)
            } else {
                None
            },
        },
{
    lemma_value_from_append(s, e, k, 0);
}

proof fn lemma_value_from_append<V>(s: Seq<Keyed<V>>, e: Keyed<V>, k: Seq<char>, i: int)
    requires
        0 <= i <= s.len(),
    ensures
        value_from(s.push(e), k, i) == match value_from(s, k, i) {
            Some(v) => Some(v),
            None => if e.key@ == k {
                Some(e.value)
            } else {
                None
            },
        },
    decreases s.len() - i,
{
    if i < s.len() {
        assert(s.push(e)[i] == s[i]);
        lemma_value_from_append(s, e, k, i + 1);
    } else {
        assert(s.push(e)[i] == e);
        assert(value_from(s.push(e), k, i + 1) is None);
    }
}

/// A key with no value has no entry.
pub proof fn lemma_value_absent<V>(s: Seq<Keyed<V>>, k: Seq<char>)
    requires
        value_of(s, k) is None,
    ensures
        forall|j: int| 0 <= j < s.len() ==> #[trigger] s[j].key@ != k,
{
    assert forall|j: int| 0 <= j < s.len() implies #[trigger] s[j].key@ != k by {
        if s[j].key@ == k {
            lemma_value_from_first_hit(s, k, 0, j);
        }
    }
}

proof fn lemma_value_from_first_hit<V>(s: Seq<Keyed<V>>, k: Seq<char>, i: int, j: int)
    requires
        0 <= i <= j < s.len(),
        s[j].key@ == k,
    ensures
        value_from(s, k, i) is Some,
    decreases j - i,
{
    if i < j && s[i].key@ != k {
        lemma_value_from_first_hit(s, k, i + 1, j);
    }
}

/// A key that no entry has has no value.
pub proof fn lemma_value_missing<V>(s: Seq<Keyed<V>>, k: Seq<char>)
    requires
        forall|j: int| 0 <= j < s.len() ==> #[trigger] s[j].key@ != k,
    ensures
        value_of(s, k) is None,
{
    lemma_value_from_prefix_miss(s, k, 0, s.len() as int);
}

} // verus!
