use vstd::prelude::*;
use crate::table::{assoc_get, distinct_keys, Table};
use crate::table::{lemma_assoc_get_first_match, lemma_assoc_get_none, lemma_lookup_unchanged};

verus! {

/// Whether one of `names` reads `n`.
pub open spec fn group_contains(names: Seq<String>, n: Seq<char>) -> bool {
    exists|j: int| 0 <= j < names.len() && names[j]@ == n
}

/// The immutable association from interface identity and component type
/// name to a registered factory.  The factories themselves are dispatched by
/// the `Component` implementation, so the registry records which pairs have
/// one.
pub struct Registry {
    /// Interface identity to the component type names registered under it.
    pub types: Table<Vec<String>>,
}

impl Registry {
    pub open spec fn wf(self) -> bool {
        self.types.wf()
    }

    /// Whether any factory at all is registered for interface `i`.
    pub open spec fn has_interface(self, i: Seq<char>) -> bool {
        self.types.spec_get(i) is Some
    }

    /// Whether a factory is registered for interface `i` under component
    /// type name `n`.
    pub open spec fn has_component(self, i: Seq<char>, n: Seq<char>) -> bool {
        match self.types.spec_get(i) {
            Some(names) => group_contains(names@, n),
            None => false,
        }
    }

    /// An empty registry: nothing is registered.
    pub fn new() -> (r: Registry)
        ensures
            r.wf(),
            forall|i: Seq<char>| !r.has_interface(i),
            forall|i: Seq<char>, n: Seq<char>| !r.has_component(i, n),
    {
        Registry { types: Table::new() }
    }

    /// Records that a factory for interface `interface` exists under
    /// component type name `name`.  Registering the same pair again changes
    /// nothing; no other pair is touched.
    pub fn register(&mut self, interface: &str, name: &str)
        requires
            old(self).wf(),
        ensures
            final(self).wf(),
            final(self).has_component(interface@, name@),
            forall|i: Seq<char>|
                i != interface@ ==> final(self).types.spec_get(i) == old(self).types.spec_get(i),
            forall|i: Seq<char>|
                final(self).has_interface(i) == (old(self).has_interface(i) || i == interface@),
            forall|n: Seq<char>|
                final(self).has_component(interface@, n) == (old(self).has_component(
                    interface@,
                    n,
                ) || n == name@),
    {
        let ghost old_types = self.types.entries@;
        let iface: String = interface.to_owned();
        let n_groups = self.types.entries.len();
        let mut i: usize = 0;
        while i < n_groups
            invariant
                old(self).wf(),
                old_types == old(self).types.entries@,
                old_types == self.types.entries@,
                n_groups == self.types.entries.len(),
                0 <= i <= n_groups,
                iface@ == interface@,
                forall|j: int| 0 <= j < i ==> self.types.entries@[j].0@ != interface@,
            decreases n_groups - i,
        {
            if self.types.entries[i].0 == iface {
                proof {
                    lemma_assoc_get_first_match(old_types, interface@, i as int);
                }
                let ghost old_group = old_types[i as int].1@;
                let mut entry = self.types.entries.remove(i);
                let had = contains_string(&entry.1, name);
                if !had {
                    entry.1.push(name.to_owned());
                }
                let ghost new_entry = entry;
                self.types.entries.insert(i, entry);
                proof {
                    let post = self.types.entries@;
                    assert(post =~= old_types.update(i as int, new_entry));
                    assert(new_entry.0 == old_types[i as int].0);
                    assert(distinct_keys(post));
                    lemma_assoc_get_first_match(post, interface@, i as int);
                    assert forall|k: Seq<char>| k != interface@
                        implies assoc_get(post, k) == assoc_get(old_types, k) by {
                        lemma_lookup_unchanged(old_types, post, k);
                    }
                    if had {
                        assert(new_entry.1@ == old_group);
                    } else {
                        assert forall|n: Seq<char>|
                            group_contains(new_entry.1@, n) == (group_contains(old_group, n)
                                || n == name@) by {
                            lemma_group_push(old_group, new_entry.1@, name@, n);
                        }
                    }
                }
                return;
            }
            i += 1;
        }
        let ghost iface_view = interface@;
        proof {
            lemma_assoc_get_none(old_types, iface_view);
        }
        let mut names: Vec<String> = Vec::new();
        names.push(name.to_owned());
        let ghost new_entry = (iface, names);
        self.types.entries.push((iface, names));
        proof {
            let post = self.types.entries@;
            assert(post == old_types.push(new_entry));
            assert(distinct_keys(post));
            lemma_assoc_get_first_match(post, iface_view, old_types.len() as int);
            assert forall|k: Seq<char>| k != iface_view
                implies assoc_get(post, k) == assoc_get(old_types, k) by {
                lemma_lookup_unchanged(old_types, post, k);
            }
            assert forall|n: Seq<char>| group_contains(new_entry.1@, n) implies n == name@ by {
                let j = choose|j: int| 0 <= j < new_entry.1@.len() && new_entry.1@[j]@ == n;
                assert(j == 0);
            }
            assert(new_entry.1@[0]@ == name@);
        }
    }

    /// Whether any factory at all is registered for `interface`.
    pub fn contains_interface(&self, interface: &str) -> (b: bool)
        ensures
            b == self.has_interface(interface@),
    {
        self.types.get(interface).is_some()
    }

    /// Whether a factory is registered for `interface` under the component
    /// type name `name`.
    pub fn contains_component(&self, interface: &str, name: &str) -> (b: bool)
        ensures
            b == self.has_component(interface@, name@),
    {
        match self.types.get(interface) {
            Some(names) => contains_string(names, name),
            None => false,
        }
    }
}

impl Default for Registry {
    /// The empty registry.
    fn default() -> (r: Registry)
        ensures
            r.wf(),
            forall|i: Seq<char>| !r.has_interface(i),
            forall|i: Seq<char>, n: Seq<char>| !r.has_component(i, n),
    {
        Registry::new()
    }
}

/// Whether one of `names` reads `name`, by linear search.
fn contains_string(names: &Vec<String>, name: &str) -> (b: bool)
    ensures
        b == group_contains(names@, name@),
{
    let wanted: String = name.to_owned();
    let n = names.len();
    let mut i: usize = 0;
    while i < n
        invariant
            n == names.len(),
            0 <= i <= n,
            wanted@ == name@,
            forall|j: int| 0 <= j < i ==> names@[j]@ != name@,
        decreases n - i,
    {
        if names[i] == wanted {
            return true;
        }
        i += 1;
    }
    false
}

/// Appending one name to a group makes it contain exactly what it contained
/// before, plus that name.
proof fn lemma_group_push(pre: Seq<String>, post: Seq<String>, added: Seq<char>, n: Seq<char>)
    requires
        post.len() == pre.len() + 1,
        forall|j: int| 0 <= j < pre.len() ==> post[j] == pre[j],
        post[pre.len() as int]@ == added,
    ensures
        group_contains(post, n) == (group_contains(pre, n) || n == added),
{
    if group_contains(pre, n) {
        let j = choose|j: int| 0 <= j < pre.len() && pre[j]@ == n;
        assert(post[j]@ == n);
    }
    if n == added {
        assert(post[pre.len() as int]@ == n);
    }
    if group_contains(post, n) {
        let j = choose|j: int| 0 <= j < post.len() && post[j]@ == n;
        if j < pre.len() {
            assert(pre[j]@ == n);
        }
    }
}

} // verus!
