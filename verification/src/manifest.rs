//! The in-memory form of the project dependency manifest: the dependency
//! entries as plain name/reference pairs, plus the rest of the JSON document
//! carried through opaquely so that a read-modify-write cycle preserves
//! every other top-level member.

use vstd::prelude::*;
use crate::jsonio::{
    doc_repr, entry_views, keys_unique, manifest_deps_of, manifest_render, manifest_rest_of,
    manifest_writable, pairs_map, parse_doc, take_string_deps,
};
use crate::models::PmError;
use crate::strutil::str_eq;
use vstd::string::StringExecFns;

verus! {

/// Some entry of `s` bears the name `k`.
pub open spec fn has_key(s: Seq<(Seq<char>, Seq<char>)>, k: Seq<char>) -> bool {
    exists|i: int| 0 <= i < s.len() && s[i].0 == k
}

/// A key is in the map of a pair sequence exactly when some entry bears it.
pub proof fn lemma_pairs_map_key(s: Seq<(Seq<char>, Seq<char>)>, k: Seq<char>)
    ensures
        pairs_map(s).contains_key(k) <==> has_key(s, k),
    decreases s.len(),
{
    if s.len() > 0 {
        lemma_pairs_map_key(s.drop_last(), k);
        if s.last().0 == k {
            assert(s[s.len() - 1].0 == k);
        } else if pairs_map(s).contains_key(k) {
            let i = choose|i: int| 0 <= i < s.drop_last().len() && s.drop_last()[i].0 == k;
            assert(s[i].0 == k);
        } else if has_key(s, k) {
            let i = choose|i: int| 0 <= i < s.len() && s[i].0 == k;
            assert(s.drop_last()[i].0 == k);
        }
    }
}

/// Under unique names, the map of a pair sequence sends each entry's name
/// to that entry's value.
pub proof fn lemma_pairs_map_get(s: Seq<(Seq<char>, Seq<char>)>, i: int)
    requires
        keys_unique(s),
        0 <= i < s.len(),
    ensures
        pairs_map(s).contains_key(s[i].0),
        pairs_map(s)[s[i].0] == s[i].1,
    decreases s.len(),
{
    if i == s.len() - 1 {
    } else {
        assert(keys_unique(s.drop_last())) by {
            assert(forall|a: int, b: int|
                0 <= a < b < s.drop_last().len() ==> s.drop_last()[a] == s[a] && s.drop_last()[b]
                    == s[b]);
        }
        lemma_pairs_map_get(s.drop_last(), i);
        assert(s.drop_last()[i] == s[i]);
        assert(s[i].0 != s.last().0);
    }
}

proof fn lemma_keys_unique_remove(s: Seq<(Seq<char>, Seq<char>)>, i: int)
    requires
        keys_unique(s),
        0 <= i < s.len(),
    ensures
        keys_unique(s.remove(i)),
        !has_key(s.remove(i), s[i].0),
{
    let t = s.remove(i);
    assert forall|a: int, b: int| 0 <= a < b < t.len() implies t[a].0 != t[b].0 by {
        let oa = if a < i { a } else { a + 1 };
        let ob = if b < i { b } else { b + 1 };
        assert(t[a] == s[oa] && t[b] == s[ob]);
    }
    assert forall|a: int| 0 <= a < t.len() implies t[a].0 != s[i].0 by {
        let oa = if a < i { a } else { a + 1 };
        assert(t[a] == s[oa]);
    }
}

/// Removing the entry at `i` removes exactly its name from the map.
pub proof fn lemma_pairs_map_remove_at(s: Seq<(Seq<char>, Seq<char>)>, i: int)
    requires
        keys_unique(s),
        0 <= i < s.len(),
    ensures
        pairs_map(s.remove(i)) == pairs_map(s).remove(s[i].0),
    decreases s.len(),
{
    if i == s.len() - 1 {
        assert(s.remove(i) =~= s.drop_last());
        lemma_pairs_map_key(s.drop_last(), s[i].0);
        assert(!has_key(s.drop_last(), s[i].0)) by {
            if has_key(s.drop_last(), s[i].0) {
                let j = choose|j: int|
                    0 <= j < s.drop_last().len() && s.drop_last()[j].0 == s[i].0;
                assert(s[j].0 == s[i].0);
            }
        }
        assert(pairs_map(s.drop_last()) =~= pairs_map(s).remove(s[i].0));
    } else {
        assert(keys_unique(s.drop_last())) by {
            assert(forall|a: int, b: int|
                0 <= a < b < s.drop_last().len() ==> s.drop_last()[a] == s[a] && s.drop_last()[b]
                    == s[b]);
        }
        lemma_pairs_map_remove_at(s.drop_last(), i);
        assert(s.remove(i).drop_last() =~= s.drop_last().remove(i));
        assert(s.remove(i).last() == s.last());
        assert(s.drop_last()[i] == s[i]);
        assert(s.last().0 != s[i].0);
        assert(pairs_map(s.remove(i)) == pairs_map(s.drop_last().remove(i)).insert(
            s.last().0,
            s.last().1,
        ));
        assert(pairs_map(s.drop_last()).remove(s[i].0).insert(s.last().0, s.last().1)
            =~= pairs_map(s.drop_last()).insert(s.last().0, s.last().1).remove(s[i].0));
    }
}

/// Appending an entry inserts its pair into the map.
pub proof fn lemma_pairs_map_push(s: Seq<(Seq<char>, Seq<char>)>, p: (Seq<char>, Seq<char>))
    ensures
        pairs_map(s.push(p)) == pairs_map(s).insert(p.0, p.1),
{
    assert(s.push(p).drop_last() =~= s);
    assert(s.push(p).last() == p);
}

/// A project dependency manifest: the dependency entries, and the rest of
/// the parsed document kept for re-serialization.
pub struct Manifest {
    pub rest: serde_json::Map<String, serde_json::Value>,
    pub deps: Vec<(String, String)>,
}

impl Manifest {
    /// The dependency entries as character sequences, in manifest order.
    pub open spec fn entries(self) -> Seq<(Seq<char>, Seq<char>)> {
        entry_views(self.deps@)
    }

    /// The dependency entries as a name-to-reference map.
    pub open spec fn deps_map(self) -> Map<Seq<char>, Seq<char>> {
        pairs_map(self.entries())
    }

    /// Entry names are unique.
    pub open spec fn wf(self) -> bool {
        keys_unique(self.entries())
    }

    /// The canonical text of the carried document outside `dependencies`.
    pub open spec fn rest_repr(self) -> Seq<char> {
        doc_repr(self.rest)
    }

    /// Parse a manifest document. Fails exactly when the text is not valid
    /// JSON. A valid document that is not a JSON object with an object (or
    /// absent) `dependencies` member parses as `Ok(None)`: it carries an
    /// empty dependency map and readers degrade, but no entry can be
    /// written into it.
    pub fn parse(text: &str) -> (r: Result<Option<Manifest>, PmError>)
        ensures
            match r {
                Ok(parsed) => match parsed {
                    Some(m) => {
                        &&& manifest_writable(text@)
                        &&& m.wf()
                        &&& manifest_deps_of(text@) == Some(m.entries())
                        &&& m.rest_repr() == manifest_rest_of(text@)
                    },
                    None => {
                        &&& !manifest_writable(text@)
                        &&& manifest_deps_of(text@) == Some(
                            Seq::<(Seq<char>, Seq<char>)>::empty(),
                        )
                    },
                },
                Err(e) => e == PmError::ManifestParseError && manifest_deps_of(text@) is None,
            },
    {
        match parse_doc(text) {
            Ok(Some(mut rest)) => {
                let deps = take_string_deps(&mut rest);
                Ok(Some(Manifest { rest, deps }))
            },
            Ok(None) => Ok(None),
            Err(_) => Err(PmError::ManifestParseError),
        }
    }

    /// Serialize the manifest. The output parses back to exactly this
    /// dependency map, with the rest of the document unchanged.
    pub fn render(&self) -> (r: String)
        requires
            self.wf(),
        ensures
            manifest_writable(r@),
            manifest_deps_of(r@) is Some,
            keys_unique(manifest_deps_of(r@)->Some_0),
            pairs_map(manifest_deps_of(r@)->Some_0) == self.deps_map(),
            manifest_rest_of(r@) == self.rest_repr(),
    {
        manifest_render(&self.rest, &self.deps)
    }

    /// The number of dependency entries.
    pub fn dep_count(&self) -> (n: usize)
        ensures
            n == self.entries().len(),
    {
        self.deps.len()
    }

    /// The position of the entry named `name`, if any.
    fn position_of(&self, name: &str) -> (r: Option<usize>)
        ensures
            match r {
                Some(i) => {
                    &&& i < self.entries().len()
                    &&& self.entries()[i as int].0 == name@
                    &&& forall|j: int| 0 <= j < i ==> self.entries()[j].0 != name@
                },
                None => !has_key(self.entries(), name@),
            },
    {
        let n = self.deps.len();
        let mut i: usize = 0;
        while i < n
            invariant
                i <= n,
                n == self.deps@.len(),
                forall|j: int| 0 <= j < i ==> self.entries()[j].0 != name@,
            decreases n - i,
        {
            if str_eq(self.deps[i].0.as_str(), name) {
                return Some(i);
            }
            i += 1;
        }
        None
    }

    /// The reference string recorded for `name`, if any.
    pub fn lookup(&self, name: &str) -> (r: Option<String>)
        requires
            self.wf(),
        ensures
            match r {
                Some(v) => self.deps_map().contains_key(name@) && v@ == self.deps_map()[name@],
                None => !self.deps_map().contains_key(name@),
            },
    {
        match self.position_of(name) {
            Some(i) => {
                proof {
                    lemma_pairs_map_get(self.entries(), i as int);
                }
                Some(self.deps[i].1.clone())
            },
            None => {
                proof {
                    lemma_pairs_map_key(self.entries(), name@);
                }
                None
            },
        }
    }

    /// Set the entry for `name` to `value`, creating it when absent.
    pub fn upsert(&mut self, name: &str, value: &str)
        requires
            old(self).wf(),
        ensures
            final(self).wf(),
            final(self).deps_map() == old(self).deps_map().insert(name@, value@),
            final(self).rest_repr() == old(self).rest_repr(),
    {
        let ghost s0 = self.entries();
        match self.position_of(name) {
            Some(i) => {
                let _ = self.deps.remove(i);
                proof {
                    assert(self.entries() =~= s0.remove(i as int));
                    lemma_keys_unique_remove(s0, i as int);
                    lemma_pairs_map_remove_at(s0, i as int);
                    lemma_pairs_map_key(self.entries(), name@);
                }
            },
            None => {
                proof {
                    lemma_pairs_map_key(s0, name@);
                    assert(pairs_map(s0).remove(name@) =~= pairs_map(s0));
                }
            },
        }
        let ghost s1 = self.entries();
        assert(!has_key(s1, name@));
        assert(pairs_map(s1) == pairs_map(s0).remove(name@));
        self.deps.push((String::from_str(name), String::from_str(value)));
        proof {
            assert(self.entries() =~= s1.push((name@, value@)));
            lemma_pairs_map_push(s1, (name@, value@));
            assert(keys_unique(self.entries())) by {
                assert(forall|j: int|
                    0 <= j < s1.len() ==> self.entries()[j] == s1[j]);
                assert(forall|a: int, b: int|
                    0 <= a < b < s1.len() ==> s1[a].0 != s1[b].0);
                assert forall|a: int| 0 <= a < s1.len() implies self.entries()[a].0 != name@ by {
                    if s1[a].0 == name@ {
                        assert(has_key(s1, name@));
                    }
                }
            }
            assert(pairs_map(s0).remove(name@).insert(name@, value@) =~= pairs_map(s0).insert(
                name@,
                value@,
            ));
        }
    }

    /// Remove the entry for `name`, returning the reference it held.
    pub fn remove(&mut self, name: &str) -> (r: Option<String>)
        requires
            old(self).wf(),
        ensures
            final(self).wf(),
            final(self).deps_map() == old(self).deps_map().remove(name@),
            final(self).rest_repr() == old(self).rest_repr(),
            match r {
                Some(v) => old(self).deps_map().contains_key(name@) && v@ == old(
                    self,
                ).deps_map()[name@],
                None => !old(self).deps_map().contains_key(name@),
            },
    {
        let ghost s0 = self.entries();
        match self.position_of(name) {
            Some(i) => {
                proof {
                    lemma_pairs_map_get(s0, i as int);
                }
                let prior = self.deps[i].1.clone();
                let _ = self.deps.remove(i);
                proof {
                    assert(self.entries() =~= s0.remove(i as int));
                    lemma_keys_unique_remove(s0, i as int);
                    lemma_pairs_map_remove_at(s0, i as int);
                }
                Some(prior)
            },
            None => {
                proof {
                    lemma_pairs_map_key(s0, name@);
                    assert(pairs_map(s0).remove(name@) =~= pairs_map(s0));
                }
                None
            },
        }
    }

    /// The dependency entries as owned pairs, in manifest order.
    pub fn entries_cloned(&self) -> (r: Vec<(String, String)>)
        ensures
            entry_views(r@) == self.entries(),
    {
        let n = self.deps.len();
        let mut r: Vec<(String, String)> = Vec::new();
        let mut i: usize = 0;
        while i < n
            invariant
                i <= n,
                n == self.deps@.len(),
                r@.len() == i,
                entry_views(r@) =~= self.entries().take(i as int),
            decreases n - i,
        {
            let name = self.deps[i].0.clone();
            let value = self.deps[i].1.clone();
            assert(name == self.deps@[i as int].0 && value == self.deps@[i as int].1);
            r.push((name, value));
            proof {
                assert(r@[i as int] =~= self.deps@[i as int]);
                assert(entry_views(r@) =~= self.entries().take(i + 1));
            }
            i += 1;
        }
        proof {
            assert(self.entries().take(n as int) =~= self.entries());
        }
        r
    }
}

} // verus!
