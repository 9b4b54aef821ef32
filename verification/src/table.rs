use vstd::prelude::*;

verus! {

/// The value stored under `key` in an association list, taking the first
/// entry whose key matches.
pub open spec fn assoc_get<V>(entries: Seq<(String, V)>, key: Seq<char>) -> Option<V>
    decreases entries.len(),
{
    if entries.len() == 0 {
        None
    } else if entries[0].0@ == key {
        Some(entries[0].1)
    } else {
        assoc_get(entries.drop_first(), key)
    }
}

/// All keys of the association list are distinct.
pub open spec fn distinct_keys<V>(entries: Seq<(String, V)>) -> bool {
    forall|i: int, j: int|
        0 <= i < j < entries.len() ==> entries[i].0@ != entries[j].0@
}

/// If position `i` holds the first entry whose key is `key`, the lookup
/// returns that entry's value.
pub(crate) proof fn lemma_assoc_get_first_match<V>(entries: Seq<(String, V)>, key: Seq<char>, i: int)
    requires
        0 <= i < entries.len(),
        entries[i].0@ == key,
        forall|j: int| 0 <= j < i ==> entries[j].0@ != key,
    ensures
        assoc_get(entries, key) == Some(entries[i].1),
    decreases i,
{
    if i > 0 {
        lemma_assoc_get_first_match(entries.drop_first(), key, i - 1);
    }
}

/// A lookup for a key that no entry holds returns nothing.
pub(crate) proof fn lemma_assoc_get_none<V>(entries: Seq<(String, V)>, key: Seq<char>)
    requires
        forall|j: int| 0 <= j < entries.len() ==> entries[j].0@ != key,
    ensures
        assoc_get(entries, key) is None,
    decreases entries.len(),
{
    if entries.len() > 0 {
        lemma_assoc_get_none(entries.drop_first(), key);
    }
}

/// A successful lookup comes from some entry of the list.
pub(crate) proof fn lemma_assoc_get_some_index<V>(entries: Seq<(String, V)>, key: Seq<char>)
    requires
        assoc_get(entries, key) is Some,
    ensures
        exists|i: int|
            0 <= i < entries.len() && entries[i].0@ == key
                && assoc_get(entries, key) == Some(entries[i].1),
    decreases entries.len(),
{
    if entries.len() > 0 {
        if entries[0].0@ == key {
            assert(0 <= 0 < entries.len() && entries[0].0@ == key
                && assoc_get(entries, key) == Some(entries[0].1));
        } else {
            lemma_assoc_get_some_index(entries.drop_first(), key);
            let i = choose|i: int|
                0 <= i < entries.drop_first().len() && entries.drop_first()[i].0@ == key
                    && assoc_get(entries.drop_first(), key) == Some(entries.drop_first()[i].1);
            assert(entries[i + 1] == entries.drop_first()[i]);
        }
    }
}

/// A string-keyed association table with distinct keys: the flat map that
/// backs the wiring configuration, the property bags, the registry and the
/// per-context instance cache.
pub struct Table<V> {
    pub entries: Vec<(String, V)>,
}

impl<V> Table<V> {
    /// The keys of this table are distinct, so a lookup has one answer.
    pub open spec fn wf(self) -> bool {
        distinct_keys(self.entries@)
    }

    /// The value stored under `key`, if any.
    pub open spec fn spec_get(self, key: Seq<char>) -> Option<V> {
        assoc_get(self.entries@, key)
    }

    /// Whether some value is stored under `key`.
    pub open spec fn contains_key(self, key: Seq<char>) -> bool {
        self.spec_get(key) is Some
    }

    /// An empty table.
    pub fn new() -> (t: Table<V>)
        ensures
            t.wf(),
            forall|k: Seq<char>| t.spec_get(k) is None,
    {
        let t = Table { entries: Vec::new() };
        proof {
            assert forall|k: Seq<char>| t.spec_get(k) is None by {
                lemma_assoc_get_none(t.entries@, k);
            }
        }
        t
    }

    /// Looks the key up, returning a reference to the stored value.
    pub fn get(&self, key: &str) -> (r: Option<&V>)
        ensures
            match r {
                Some(v) => self.spec_get(key@) == Some(*v),
                None => self.spec_get(key@) is None,
            },
    {
        let k: String = key.to_owned();
        let n = self.entries.len();
        let mut i: usize = 0;
        while i < n
            invariant
                n == self.entries.len(),
                0 <= i <= n,
                forall|j: int| 0 <= j < i ==> self.entries@[j].0@ != k@,
                k@ == key@,
            decreases n - i,
        {
            if self.entries[i].0 == k {
                proof {
                    lemma_assoc_get_first_match(self.entries@, key@, i as int);
                }
                return Some(&self.entries[i].1);
            }
            i += 1;
        }
        proof {
            lemma_assoc_get_none(self.entries@, key@);
        }
        None
    }

    /// Stores `value` under `key`, replacing any earlier value under the
    /// same key and leaving every other key untouched.
    pub fn insert(&mut self, key: String, value: V)
        requires
            old(self).wf(),
        ensures
            final(self).wf(),
            final(self).spec_get(key@) == Some(value),
            forall|k: Seq<char>|
                k != key@ ==> final(self).spec_get(k) == old(self).spec_get(k),
    {
        let ghost old_entries = self.entries@;
        let n = self.entries.len();
        let mut i: usize = 0;
        while i < n
            invariant
                old(self).wf(),
                n == self.entries.len(),
                self.entries@ == old_entries,
                old_entries == old(self).entries@,
                0 <= i <= n,
                forall|j: int| 0 <= j < i ==> self.entries@[j].0@ != key@,
            decreases n - i,
        {
            if self.entries[i].0 == key {
                self.entries[i].1 = value;
                proof {
                    let post = self.entries@;
                    assert(post == old_entries.update(i as int, (old_entries[i as int].0, value)));
                    assert(distinct_keys(post));
                    lemma_assoc_get_first_match(post, key@, i as int);
                    assert forall|k: Seq<char>| k != key@
                        implies assoc_get(post, k) == assoc_get(old_entries, k) by {
                        lemma_lookup_unchanged(old_entries, post, k);
                    }
                }
                return;
            }
            i += 1;
        }
        let ghost key_view = key@;
        self.entries.push((key, value));
        proof {
            let post = self.entries@;
            assert(post == old_entries.push(post[old_entries.len() as int]));
            assert(distinct_keys(post));
            lemma_assoc_get_first_match(post, key_view, old_entries.len() as int);
            assert forall|k: Seq<char>| k != key_view
                implies assoc_get(post, k) == assoc_get(old_entries, k) by {
                lemma_lookup_unchanged(old_entries, post, k);
            }
        }
    }
}

/// Two lists with distinct keys that hold the same entries wherever the key
/// is `k` agree on the lookup of `k`.  Here `post` extends or rewrites `pre`
/// without touching any entry whose key is `k`.
pub(crate) proof fn lemma_lookup_unchanged<V>(pre: Seq<(String, V)>, post: Seq<(String, V)>, k: Seq<char>)
    requires
        distinct_keys(pre),
        distinct_keys(post),
        forall|i: int|
            0 <= i < pre.len() && pre[i].0@ == k ==> post.len() > i && post[i] == pre[i],
        forall|i: int|
            0 <= i < post.len() && post[i].0@ == k ==> pre.len() > i && pre[i] == post[i],
    ensures
        assoc_get(post, k) == assoc_get(pre, k),
{
    match assoc_get(pre, k) {
        Some(_) => {
            lemma_assoc_get_some_index(pre, k);
            let i = choose|i: int|
                0 <= i < pre.len() && pre[i].0@ == k && assoc_get(pre, k) == Some(pre[i].1);
            assert forall|j: int| 0 <= j < i implies post[j].0@ != k by {
                if 0 <= j < post.len() && post[j].0@ == k {
                    assert(pre[j] == post[j]);
                }
            }
            lemma_assoc_get_first_match(post, k, i);
        }
        None => {
            lemma_assoc_get_none_from_absent(pre, k);
            assert forall|j: int| 0 <= j < post.len() implies post[j].0@ != k by {
                if post[j].0@ == k {
                    assert(pre[j] == post[j]);
                }
            }
            lemma_assoc_get_none(post, k);
        }
    }
}

/// If the lookup of `k` finds nothing, no entry holds `k`.
proof fn lemma_assoc_get_none_from_absent<V>(entries: Seq<(String, V)>, k: Seq<char>)
    requires
        assoc_get(entries, k) is None,
    ensures
        forall|j: int| 0 <= j < entries.len() ==> entries[j].0@ != k,
    decreases entries.len(),
{
    if entries.len() > 0 {
        lemma_assoc_get_none_from_absent(entries.drop_first(), k);
        assert forall|j: int| 0 <= j < entries.len() implies entries[j].0@ != k by {
            if j > 0 {
                assert(entries.drop_first()[j - 1] == entries[j]);
            }
        }
    }
}

} // verus!
