//! Configuration profiles: the endpoints and identity stored for each domain
//! a user has authenticated against. Reading and writing the configuration
//! file is the surrounding program's business; the profile map's semantics
//! live here.

use vstd::prelude::*;
use crate::chars::str_eq;

verus! {

/// The endpoints remembered for one authenticated domain.
#[derive(Debug, Clone, PartialEq, Eq)]
pub struct Profile {
    pub domain: String,
    pub micropub_endpoint: Option<String>,
    pub media_endpoint: Option<String>,
    pub token_endpoint: Option<String>,
    pub authorization_endpoint: Option<String>,
}

/// The tool's configuration: the default profile's name, the preferred
/// editor, the configured client identifier, and the named profiles. The
/// profiles are held as name/profile pairs whose names are unique.
#[derive(Debug, Clone)]
pub struct Config {
    pub default_profile: String,
    pub editor: Option<String>,
    pub client_id: Option<String>,
    pub profiles: Vec<(String, Profile)>,
}

/// The profile stored under a name: the first pair carrying it.
pub open spec fn lookup_profile(ps: Seq<(String, Profile)>, name: Seq<char>) -> Option<Profile>
    decreases ps.len(),
{
    if ps.len() == 0 {
        None
    } else if ps[0].0@ == name {
        Some(ps[0].1)
    } else {
        lookup_profile(ps.drop_first(), name)
    }
}

/// No two pairs carry the same name.
pub open spec fn profile_names_unique(ps: Seq<(String, Profile)>) -> bool {
    forall|i: int, j: int| 0 <= i < j < ps.len() ==> ps[i].0@ != ps[j].0@
}

proof fn lemma_lookup_skip(ps: Seq<(String, Profile)>, name: Seq<char>, i: int)
    requires
        0 <= i <= ps.len(),
        forall|j: int| 0 <= j < i ==> ps[j].0@ != name,
    ensures
        lookup_profile(ps, name) == lookup_profile(ps.skip(i), name),
    decreases i,
{
    if i > 0 {
        let t = ps.drop_first();
        assert forall|j: int| 0 <= j < i - 1 implies t[j].0@ != name by {
            assert(t[j] == ps[j + 1]);
        }
        lemma_lookup_skip(t, name, i - 1);
        assert(t.skip(i - 1) =~= ps.skip(i));
    } else {
        assert(ps.skip(0) =~= ps);
    }
}

proof fn lemma_lookup_update(
    ps: Seq<(String, Profile)>,
    i: int,
    entry: (String, Profile),
    key: Seq<char>,
)
    requires
        0 <= i < ps.len(),
        forall|j: int| 0 <= j < i ==> ps[j].0@ != key,
        ps[i].0@ == key,
        entry.0@ == key,
    ensures
        lookup_profile(ps.update(i, entry), key) == Some(entry.1),
        forall|other: Seq<char>|
            other != key ==> lookup_profile(ps.update(i, entry), other) == lookup_profile(
                ps,
                other,
            ),
    decreases i,
{
    let qs = ps.update(i, entry);
    if i == 0 {
        assert(qs[0] == entry);
        assert(lookup_profile(qs, key) == Some(entry.1));
        assert forall|other: Seq<char>| other != key implies lookup_profile(qs, other)
            == lookup_profile(ps, other) by {
            assert(qs.drop_first() =~= ps.drop_first());
        }
    } else {
        let t = ps.drop_first();
        assert forall|j: int| 0 <= j < i - 1 implies t[j].0@ != key by {
            assert(t[j] == ps[j + 1]);
        }
        assert(t[i - 1] == ps[i]);
        lemma_lookup_update(t, i - 1, entry, key);
        assert(qs[0] == ps[0]);
        assert(qs.drop_first() =~= t.update(i - 1, entry));
        assert(ps[0].0@ != key);
        assert(lookup_profile(qs, key) == lookup_profile(t.update(i - 1, entry), key));
        assert forall|other: Seq<char>| other != key implies lookup_profile(qs, other)
            == lookup_profile(ps, other) by {
            if ps[0].0@ != other {
                assert(lookup_profile(qs, other) == lookup_profile(t.update(i - 1, entry), other));
                assert(lookup_profile(ps, other) == lookup_profile(t, other));
            }
        }
    }
}

proof fn lemma_lookup_push(ps: Seq<(String, Profile)>, entry: (String, Profile), key: Seq<char>)
    requires
        forall|j: int| 0 <= j < ps.len() ==> ps[j].0@ != key,
        entry.0@ == key,
    ensures
        lookup_profile(ps.push(entry), key) == Some(entry.1),
        forall|other: Seq<char>|
            other != key ==> lookup_profile(ps.push(entry), other) == lookup_profile(ps, other),
    decreases ps.len(),
{
    let qs = ps.push(entry);
    if ps.len() == 0 {
        assert(qs[0] == entry);
        assert(lookup_profile(qs, key) == Some(entry.1));
        assert forall|other: Seq<char>| other != key implies lookup_profile(qs, other)
            == lookup_profile(ps, other) by {
            assert(lookup_profile(qs, other) == lookup_profile(qs.drop_first(), other));
            assert(qs.drop_first() =~= Seq::<(String, Profile)>::empty());
            lemma_lookup_empty(other);
            assert(lookup_profile(ps, other) is None);
        }
    } else {
        let t = ps.drop_first();
        assert forall|j: int| 0 <= j < t.len() implies t[j].0@ != key by {
            assert(t[j] == ps[j + 1]);
        }
        lemma_lookup_push(t, entry, key);
        assert(qs[0] == ps[0]);
        assert(qs.drop_first() =~= t.push(entry));
        assert(ps[0].0@ != key);
        assert forall|other: Seq<char>| other != key implies lookup_profile(qs, other)
            == lookup_profile(ps, other) by {
            if ps[0].0@ != other {
                assert(lookup_profile(qs, other) == lookup_profile(t.push(entry), other));
                assert(lookup_profile(ps, other) == lookup_profile(t, other));
            }
        }
    }
}

proof fn lemma_lookup_empty(other: Seq<char>)
    ensures
        lookup_profile(Seq::<(String, Profile)>::empty(), other) is None,
{
}

impl Config {
    /// An empty configuration, the state before any authentication.
    pub fn empty() -> (r: Config)
        ensures
            r.default_profile@.len() == 0,
            r.editor is None,
            r.client_id is None,
            r.profiles@.len() == 0,
    {
        Config {
            default_profile: String::new(),
            editor: None,
            client_id: None,
            profiles: Vec::new(),
        }
    }

    /// Get a profile by name.
    pub fn get_profile(&self, name: &str) -> (r: Option<&Profile>)
        ensures
            match r {
                Some(p) => lookup_profile(self.profiles@, name@) == Some(*p),
                None => lookup_profile(self.profiles@, name@) is None,
            },
    {
        let ghost ps = self.profiles@;
        let n = self.profiles.len();
        for i in 0..n
            invariant
                n == ps.len(),
                ps == self.profiles@,
                forall|j: int| 0 <= j < i ==> ps[j].0@ != name@,
        {
            if str_eq(self.profiles[i].0.as_str(), name) {
                proof {
                    lemma_lookup_skip(ps, name@, i as int);
                    assert(ps.skip(i as int)[0] == ps[i as int]);
                }
                return Some(&self.profiles[i].1);
            }
        }
        proof {
            lemma_lookup_skip(ps, name@, n as int);
            assert(ps.skip(n as int) =~= Seq::<(String, Profile)>::empty());
        }
        None
    }

    /// Add a profile or replace the one stored under the same name. Every
    /// other name keeps its profile, and names stay unique.
    pub fn upsert_profile(&mut self, name: String, profile: Profile)
        ensures
            lookup_profile(final(self).profiles@, name@) == Some(profile),
            forall|other: Seq<char>|
                other != name@ ==> lookup_profile(final(self).profiles@, other) == lookup_profile(
                    old(self).profiles@,
                    other,
                ),
            profile_names_unique(old(self).profiles@) ==> profile_names_unique(
                final(self).profiles@,
            ),
            final(self).default_profile == old(self).default_profile,
            final(self).editor == old(self).editor,
            final(self).client_id == old(self).client_id,
    {
        let ghost ps = self.profiles@;
        let n = self.profiles.len();
        for i in 0..n
            invariant
                n == ps.len(),
                ps == self.profiles@,
                ps == old(self).profiles@,
                self.default_profile == old(self).default_profile,
                self.editor == old(self).editor,
                self.client_id == old(self).client_id,
                forall|j: int| 0 <= j < i ==> ps[j].0@ != name@,
        {
            if str_eq(self.profiles[i].0.as_str(), name.as_str()) {
                proof {
                    lemma_lookup_update(ps, i as int, (name, profile), name@);
                }
                let ghost qs = ps.update(i as int, (name, profile));
                self.profiles[i] = (name, profile);
                proof {
                    assert(self.profiles@ == qs);
                    if profile_names_unique(ps) {
                        assert forall|a: int, b: int|
                            0 <= a < b < qs.len() implies qs[a].0@ != qs[b].0@ by {
                            if a != i && b != i {
                                assert(qs[a] == ps[a] && qs[b] == ps[b]);
                            } else if a == i {
                                assert(qs[b] == ps[b] && ps[i as int].0@ == name@);
                            } else {
                                assert(qs[a] == ps[a] && ps[i as int].0@ == name@);
                            }
                        }
                    }
                }
                return ;
            }
        }
        proof {
            lemma_lookup_push(ps, (name, profile), name@);
        }
        let ghost qs = ps.push((name, profile));
        self.profiles.push((name, profile));
        proof {
            assert(self.profiles@ == qs);
            if profile_names_unique(ps) {
                assert forall|a: int, b: int| 0 <= a < b < qs.len() implies qs[a].0@ != qs[b].0@ by {
                    if b == ps.len() {
                        assert(qs[a] == ps[a] && ps[a].0@ != name@);
                    } else {
                        assert(qs[a] == ps[a] && qs[b] == ps[b]);
                    }
                }
            }
        }
    }
}

} // verus!
