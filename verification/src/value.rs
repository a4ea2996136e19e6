use vstd::prelude::*;

verus! {

/// A generic configuration value: a JSON-like tree. A number is kept as its
/// decimal lexeme, so the tree itself stays exact; typed extraction converts
/// a lexeme on demand.
#[derive(Debug, PartialEq)]
pub enum ConfigValue {
    Null,
    Bool(bool),
    /// The decimal lexeme of a number, e.g. `"30"` or `"1.5"`.
    Number(String),
    Text(String),
    Array(Vec<ConfigValue>),
    Object(Vec<(String, ConfigValue)>),
}

/// True when some entry of `entries` has key `k`.
pub open spec fn keyed(entries: Seq<(String, ConfigValue)>, k: Seq<char>) -> bool {
    exists|i: int| 0 <= i < entries.len() && entries[i].0@ == k
}

/// The value at key `k`: the first entry whose key is `k`, front to back.
pub open spec fn lookup(entries: Seq<(String, ConfigValue)>, k: Seq<char>) -> Option<ConfigValue>
    decreases entries.len(),
{
    if entries.len() == 0 {
        None
    } else if entries[0].0@ == k {
        Some(entries[0].1)
    } else {
        lookup(entries.skip(1), k)
    }
}

/// No two entries share a key.
pub open spec fn unique_keys(entries: Seq<(String, ConfigValue)>) -> bool {
    forall|i: int, j: int|
        0 <= i < j < entries.len() ==> entries[i].0@ != entries[j].0@
}

/// `lookup` finds a key exactly when some entry carries it.
pub proof fn lemma_lookup_keyed(entries: Seq<(String, ConfigValue)>, k: Seq<char>)
    ensures
        lookup(entries, k) is Some <==> keyed(entries, k),
    decreases entries.len(),
{
    if entries.len() > 0 {
        if entries[0].0@ == k {
        } else {
            lemma_lookup_keyed(entries.skip(1), k);
            assert(keyed(entries.skip(1), k) ==> keyed(entries, k)) by {
                if keyed(entries.skip(1), k) {
                    let i = choose|i: int|
                        0 <= i < entries.skip(1).len() && entries.skip(1)[i].0@ == k;
                    assert(entries[i + 1].0@ == k);
                }
            }
            if keyed(entries, k) {
                let i = choose|i: int| 0 <= i < entries.len() && entries[i].0@ == k;
                assert(entries.skip(1)[i - 1].0@ == k);
            }
        }
    }
}

/// When the entries before `i` miss `k`, lookup proceeds in the tail.
pub proof fn lemma_lookup_skip(entries: Seq<(String, ConfigValue)>, k: Seq<char>, i: int)
    requires
        0 <= i <= entries.len(),
        forall|j: int| 0 <= j < i ==> entries[j].0@ != k,
    ensures
        lookup(entries, k) == lookup(entries.skip(i), k),
    decreases i,
{
    if i > 0 {
        lemma_lookup_skip(entries.skip(1), k, i - 1);
        assert(entries.skip(1).skip(i - 1) =~= entries.skip(i));
    } else {
        assert(entries.skip(0) =~= entries);
    }
}

/// The entries of an object value; the empty sequence for any other value.
pub open spec fn entries_of(v: ConfigValue) -> Seq<(String, ConfigValue)> {
    match v {
        ConfigValue::Object(es) => es@,
        _ => Seq::empty(),
    }
}

/// Every object anywhere in the tree has pairwise-distinct keys.
pub open spec fn value_wf(v: ConfigValue) -> bool
    decreases v,
{
    match v {
        ConfigValue::Array(items) => forall|i: int|
            0 <= i < items@.len() ==> value_wf(#[trigger] items@[i]),
        ConfigValue::Object(es) => unique_keys(es@) && forall|i: int|
            0 <= i < es@.len() ==> value_wf(#[trigger] es@[i].1),
        _ => true,
    }
}

/// Appending an entry leaves every earlier key at its old value; a fresh key
/// is found at the new entry.
pub proof fn lemma_lookup_push(entries: Seq<(String, ConfigValue)>, e: (String, ConfigValue), k: Seq<char>)
    ensures
        lookup(entries.push(e), k) == if lookup(entries, k) is Some {
            lookup(entries, k)
        } else if e.0@ == k {
            Some(e.1)
        } else {
            None::<ConfigValue>
        },
    decreases entries.len(),
{
    if entries.len() == 0 {
        assert(entries.push(e)[0] == e);
        assert(entries.push(e).skip(1) =~= entries);
    } else {
        assert(entries.push(e)[0] == entries[0]);
        if entries[0].0@ == k {
        } else {
            assert(entries.push(e).skip(1) =~= entries.skip(1).push(e));
            lemma_lookup_push(entries.skip(1), e, k);
        }
    }
}

/// Replacing the entry at `i` by one with the same key changes the lookup of
/// that key alone, and keeps the keys distinct.
pub proof fn lemma_lookup_update(
    entries: Seq<(String, ConfigValue)>,
    i: int,
    e: (String, ConfigValue),
    k: Seq<char>,
)
    requires
        unique_keys(entries),
        0 <= i < entries.len(),
        entries[i].0@ == e.0@,
    ensures
        unique_keys(entries.update(i, e)),
        lookup(entries.update(i, e), k) == if e.0@ == k {
            Some(e.1)
        } else {
            lookup(entries, k)
        },
    decreases entries.len(),
{
    let u = entries.update(i, e);
    assert(forall|j: int| 0 <= j < entries.len() && j != i ==> u[j] == entries[j]);
    if i == 0 {
        assert(u.skip(1) =~= entries.skip(1));
        if e.0@ != k {
            if entries[0].0@ == k {
                assert(false);
            }
        }
    } else {
        assert(u[0] == entries[0]);
        assert(u.skip(1) =~= entries.skip(1).update(i - 1, e));
        assert(unique_keys(entries.skip(1))) by {
            assert(forall|a: int, b: int|
                0 <= a < b < entries.skip(1).len() ==> entries.skip(1)[a] == entries[a + 1]
                    && entries.skip(1)[b] == entries[b + 1]);
        }
        lemma_lookup_update(entries.skip(1), i - 1, e, k);
        if entries[0].0@ == k {
            assert(entries[i].0@ != k);
        }
        assert(unique_keys(u)) by {
            assert(forall|a: int, b: int| 0 <= a < b < u.len() && u[a].0@ == u[b].0@ ==> false)
                by {
                if exists|a: int, b: int| 0 <= a < b < u.len() && u[a].0@ == u[b].0@ {
                    let (a, b) = choose|a: int, b: int|
                        0 <= a < b < u.len() && u[a].0@ == u[b].0@;
                    assert(u[a].0@ == if a == i {
                        entries[i].0@
                    } else {
                        entries[a].0@
                    });
                    assert(u[b].0@ == if b == i {
                        entries[i].0@
                    } else {
                        entries[b].0@
                    });
                    assert(entries[a].0@ == entries[b].0@);
                    assert(false);
                }
            }
        }
    }
}

/// Removing the entry at `i` erases its key and no other.
pub proof fn lemma_lookup_remove(entries: Seq<(String, ConfigValue)>, i: int, k: Seq<char>)
    requires
        unique_keys(entries),
        0 <= i < entries.len(),
    ensures
        unique_keys(entries.remove(i)),
        lookup(entries.remove(i), k) == if entries[i].0@ == k {
            None::<ConfigValue>
        } else {
            lookup(entries, k)
        },
    decreases entries.len(),
{
    let u = entries.remove(i);
    assert(forall|j: int| 0 <= j < i ==> u[j] == entries[j]);
    assert(forall|j: int| i <= j < u.len() ==> u[j] == entries[j + 1]);
    assert(unique_keys(u));
    if i == 0 {
        assert(u =~= entries.skip(1));
        if entries[0].0@ == k {
            lemma_lookup_keyed(entries.skip(1), k);
            if keyed(entries.skip(1), k) {
                let j = choose|j: int|
                    0 <= j < entries.skip(1).len() && entries.skip(1)[j].0@ == k;
                assert(entries[j + 1].0@ == entries[0].0@);
                assert(false);
            }
        }
    } else {
        assert(u[0] == entries[0]);
        assert(u.skip(1) =~= entries.skip(1).remove(i - 1));
        assert(unique_keys(entries.skip(1))) by {
            assert(forall|a: int, b: int|
                0 <= a < b < entries.skip(1).len() ==> entries.skip(1)[a] == entries[a + 1]
                    && entries.skip(1)[b] == entries[b + 1]);
        }
        lemma_lookup_remove(entries.skip(1), i - 1, k);
        if entries[0].0@ == k {
            assert(entries[i].0@ != k);
        }
    }
}

/// Insert `key -> value`: replace the entry carrying `key`, or append a new
/// one. Afterwards `key` maps to `value` and every other key is unchanged.
pub fn upsert(entries: &mut Vec<(String, ConfigValue)>, key: String, value: ConfigValue)
    requires
        unique_keys(old(entries)@),
    ensures
        unique_keys(final(entries)@),
        forall|k: Seq<char>| #![trigger lookup(final(entries)@, k)]
            lookup(final(entries)@, k) == if key@ == k {
                Some(value)
            } else {
                lookup(old(entries)@, k)
            },
        final(entries)@.len() <= old(entries)@.len() + 1,
        forall|i: int| 0 <= i < final(entries)@.len() ==> #[trigger] final(entries)@[i] == (
        key, value) || exists|j: int|
            0 <= j < old(entries)@.len() && final(entries)@[i] == old(entries)@[j],
{
    let ghost orig = entries@;
    match find_entry(entries, key.as_str()) {
        Some(i) => {
            entries[i] = (key, value);
            proof {
                assert forall|k: Seq<char>| true implies #[trigger] lookup(entries@, k) == if key@
                    == k {
                    Some(value)
                } else {
                    lookup(orig, k)
                } by {
                    lemma_lookup_update(orig, i as int, (key, value), k);
                }
                lemma_lookup_update(orig, i as int, (key, value), key@);
            }
        },
        None => {
            entries.push((key, value));
            proof {
                assert forall|k: Seq<char>| true implies #[trigger] lookup(entries@, k) == if key@
                    == k {
                    Some(value)
                } else {
                    lookup(orig, k)
                } by {
                    lemma_lookup_push(orig, (key, value), k);
                    lemma_lookup_keyed(orig, k);
                }
                assert(unique_keys(entries@)) by {
                    lemma_lookup_keyed(orig, key@);
                    assert(forall|j: int|
                        0 <= j < orig.len() ==> entries@[j] == orig[j]);
                    assert(forall|a: int, b: int|
                        0 <= a < b < entries@.len() && b < orig.len() ==> entries@[a].0@
                            != entries@[b].0@);
                    assert(forall|a: int|
                        0 <= a < orig.len() ==> orig[a].0@ != key@);
                }
            }
        },
    }
}

/// Find the entry with key `key`, if any: its index, which pins down the
/// spec-level `lookup` of the same key.
pub fn find_entry(entries: &Vec<(String, ConfigValue)>, key: &str) -> (r: Option<usize>)
    ensures
        match r {
            Some(i) => {
                &&& i < entries@.len()
                &&& entries@[i as int].0@ == key@
                &&& lookup(entries@, key@) == Some(entries@[i as int].1)
                &&& forall|j: int| 0 <= j < i ==> entries@[j].0@ != key@
            },
            None => {
                &&& lookup(entries@, key@) is None
                &&& !keyed(entries@, key@)
            },
        },
{
    let wanted: String = key.to_owned();
    let n = entries.len();
    let mut i: usize = 0;
    while i < n
        invariant
            n == entries@.len(),
            i <= n,
            wanted@ == key@,
            forall|j: int| 0 <= j < i ==> entries@[j].0@ != key@,
        decreases n - i,
    {
        if entries[i].0.eq(&wanted) {
            proof {
                lemma_lookup_skip(entries@, key@, i as int);
                assert(entries@.skip(i as int)[0] == entries@[i as int]);
            }
            return Some(i);
        }
        i = i + 1;
    }
    proof {
        lemma_lookup_skip(entries@, key@, n as int);
        lemma_lookup_keyed(entries@, key@);
    }
    None
}

} // verus!
