//! The profile registry: a mapping from id to profile with unique ids,
//! seeded from the built-in table and rebuilt in full on every load, with
//! user-defined profiles overriding on id collision.
use vstd::prelude::*;

verus! {

use crate::profile::Profile;
use crate::profile::ProfileView;
use crate::profile::builtin_ids;
use crate::profile::builtin_profiles;
use crate::profile::get_built_in_profiles;
use crate::profile::lemma_builtin_ids;
use crate::text::str_eq;

/// The ids of the profiles in `s` are pairwise distinct.
pub open spec fn ids_unique(s: Seq<ProfileView>) -> bool {
    forall|i: int, j: int| 0 <= i < j < s.len() ==> s[i].id != s[j].id
}

/// Some profile in `s` has id `id`.
pub open spec fn has_id(s: Seq<ProfileView>, id: Seq<char>) -> bool {
    exists|i: int| 0 <= i < s.len() && s[i].id == id
}

/// An index of a profile with id `id` (the index, when ids are unique).
pub open spec fn the_idx(s: Seq<ProfileView>, id: Seq<char>) -> int {
    choose|i: int| 0 <= i < s.len() && s[i].id == id
}

/// The profile in `s` with id `id` (meaningful when `has_id(s, id)`).
pub open spec fn lookup(s: Seq<ProfileView>, id: Seq<char>) -> ProfileView {
    s[the_idx(s, id)]
}

/// Insert `p`: overwrite the entry with the same id if one exists,
/// else append.
pub open spec fn upsert(s: Seq<ProfileView>, p: ProfileView) -> Seq<ProfileView> {
    if has_id(s, p.id) {
        s.update(the_idx(s, p.id), p)
    } else {
        s.push(p)
    }
}

/// Insert the profiles of `customs` into `base` in order, later insertions
/// overriding earlier entries with the same id.
pub open spec fn merged(base: Seq<ProfileView>, customs: Seq<ProfileView>) -> Seq<ProfileView>
    decreases customs.len(),
{
    if customs.len() == 0 {
        base
    } else {
        merged(upsert(base, customs[0]), customs.skip(1))
    }
}

/// The registry contents that a load with `customs` produces: the built-in
/// table with the user-defined profiles merged in.
pub open spec fn full_registry(customs: Seq<ProfileView>) -> Seq<ProfileView> {
    merged(builtin_profiles(), customs)
}

proof fn lemma_lookup_at(s: Seq<ProfileView>, k: int)
    requires
        ids_unique(s),
        0 <= k < s.len(),
    ensures
        has_id(s, s[k].id),
        lookup(s, s[k].id) == s[k],
{
    assert(has_id(s, s[k].id));
    let w = the_idx(s, s[k].id);
    assert(0 <= w < s.len() && s[w].id == s[k].id);
    if w != k {
        assert(s[w].id != s[k].id);
    }
}

proof fn lemma_upsert(s: Seq<ProfileView>, p: ProfileView)
    requires
        ids_unique(s),
    ensures
        ids_unique(upsert(s, p)),
        forall|id: Seq<char>| has_id(upsert(s, p), id) <==> (has_id(s, id) || id == p.id),
        lookup(upsert(s, p), p.id) == p,
        forall|id: Seq<char>|
            id != p.id && has_id(s, id) ==> lookup(upsert(s, p), id) == lookup(s, id),
{
    lemma_upsert_sets(s, p);
    let u = upsert(s, p);
    if has_id(s, p.id) {
        let k = the_idx(s, p.id);
        assert(0 <= k < s.len() && s[k].id == p.id);
        assert(u[k] == p);
        lemma_lookup_at(u, k);
    } else {
        assert(u[s.len() as int] == p);
        lemma_lookup_at(u, s.len() as int);
    }
    assert forall|id: Seq<char>|
        id != p.id && has_id(s, id) implies lookup(u, id) == lookup(s, id) by {
        let j = the_idx(s, id);
        assert(0 <= j < s.len() && s[j].id == id);
        assert(u[j] == s[j]);
        lemma_lookup_at(u, j);
    }
}

proof fn lemma_upsert_sets(s: Seq<ProfileView>, p: ProfileView)
    requires
        ids_unique(s),
    ensures
        ids_unique(upsert(s, p)),
        forall|id: Seq<char>| has_id(upsert(s, p), id) <==> (has_id(s, id) || id == p.id),
{
    let u = upsert(s, p);
    if has_id(s, p.id) {
        let k = the_idx(s, p.id);
        assert(0 <= k < s.len() && s[k].id == p.id);
        assert forall|i: int, j: int| 0 <= i < j < u.len() implies u[i].id != u[j].id by {
            assert(s[i].id != s[j].id);
        }
        assert forall|id: Seq<char>|
            has_id(u, id) <==> (has_id(s, id) || id == p.id) by {
            if has_id(u, id) {
                let w = choose|i: int| 0 <= i < u.len() && u[i].id == id;
                if w == k {
                    assert(id == p.id);
                } else {
                    assert(s[w].id == id);
                    assert(has_id(s, id));
                }
            }
            if has_id(s, id) {
                let w = choose|i: int| 0 <= i < s.len() && s[i].id == id;
                if w == k {
                    assert(u[k].id == p.id && id == p.id);
                    assert(has_id(u, id));
                } else {
                    assert(u[w].id == id);
                    assert(has_id(u, id));
                }
            }
            if id == p.id {
                assert(u[k].id == id);
                assert(has_id(u, id));
            }
        }
    } else {
        assert forall|i: int, j: int| 0 <= i < j < u.len() implies u[i].id != u[j].id by {
            if j < s.len() {
                assert(s[i].id != s[j].id);
            } else {
                assert(u[j] == p);
                assert(s[i].id == u[i].id);
                assert(!(s[i].id == p.id)) by {
                    if s[i].id == p.id {
                        assert(has_id(s, p.id));
                    }
                }
            }
        }
        assert forall|id: Seq<char>|
            has_id(u, id) <==> (has_id(s, id) || id == p.id) by {
            if has_id(u, id) {
                let w = choose|i: int| 0 <= i < u.len() && u[i].id == id;
                if w == s.len() {
                    assert(id == p.id);
                } else {
                    assert(s[w].id == id);
                    assert(has_id(s, id));
                }
            }
            if has_id(s, id) {
                let w = choose|i: int| 0 <= i < s.len() && s[i].id == id;
                assert(u[w].id == id);
                assert(has_id(u, id));
            }
            if id == p.id {
                assert(u[s.len() as int].id == id);
                assert(has_id(u, id));
            }
        }
    }
}

proof fn lemma_merged(base: Seq<ProfileView>, cs: Seq<ProfileView>)
    requires
        ids_unique(base),
    ensures
        ids_unique(merged(base, cs)),
        forall|id: Seq<char>|
            has_id(merged(base, cs), id) <==> (has_id(base, id) || exists|i: int|
                0 <= i < cs.len() && cs[i].id == id),
        forall|id: Seq<char>|
            has_id(base, id) && (forall|i: int| 0 <= i < cs.len() ==> cs[i].id != id) ==> lookup(
                merged(base, cs),
                id,
            ) == lookup(base, id),
    decreases cs.len(),
{
    if cs.len() == 0 {
    } else {
        lemma_upsert(base, cs[0]);
        lemma_merged(upsert(base, cs[0]), cs.skip(1));
        let m = merged(base, cs);
        assert(m == merged(upsert(base, cs[0]), cs.skip(1)));
        assert forall|id: Seq<char>|
            has_id(m, id) <==> (has_id(base, id) || exists|i: int|
                0 <= i < cs.len() && cs[i].id == id) by {
            if has_id(m, id) {
                if !has_id(base, id) {
                    if exists|i: int| 0 <= i < cs.skip(1).len() && cs.skip(1)[i].id == id {
                        let w = choose|i: int|
                            0 <= i < cs.skip(1).len() && cs.skip(1)[i].id == id;
                        assert(cs[w + 1].id == id);
                    } else {
                        assert(id == cs[0].id);
                        assert(cs[0].id == id);
                    }
                }
            }
            if has_id(base, id) {
                assert(has_id(upsert(base, cs[0]), id));
            }
            if exists|i: int| 0 <= i < cs.len() && cs[i].id == id {
                let w = choose|i: int| 0 <= i < cs.len() && cs[i].id == id;
                if w == 0 {
                    assert(has_id(upsert(base, cs[0]), id));
                } else {
                    assert(cs.skip(1)[w - 1].id == id);
                    assert(exists|i: int| 0 <= i < cs.skip(1).len() && cs.skip(1)[i].id == id);
                }
            }
        }
        assert forall|id: Seq<char>|
            has_id(base, id) && (forall|i: int|
                0 <= i < cs.len() ==> cs[i].id != id) implies lookup(merged(base, cs), id)
            == lookup(base, id) by {
            assert(cs[0].id != id);
            assert(has_id(upsert(base, cs[0]), id));
            assert(lookup(upsert(base, cs[0]), id) == lookup(base, id));
            assert forall|i: int| 0 <= i < cs.skip(1).len() implies cs.skip(1)[i].id != id by {
                assert(cs.skip(1)[i] == cs[i + 1]);
            }
        }
    }
}

proof fn lemma_merged_lookup_custom(base: Seq<ProfileView>, cs: Seq<ProfileView>, k: int)
    requires
        ids_unique(base),
        ids_unique(cs),
        0 <= k < cs.len(),
    ensures
        has_id(merged(base, cs), cs[k].id),
        lookup(merged(base, cs), cs[k].id) == cs[k],
    decreases cs.len(),
{
    lemma_upsert(base, cs[0]);
    let b1 = upsert(base, cs[0]);
    assert(ids_unique(cs.skip(1))) by {
        assert forall|i: int, j: int|
            0 <= i < j < cs.skip(1).len() implies cs.skip(1)[i].id != cs.skip(1)[j].id by {
            assert(cs.skip(1)[i] == cs[i + 1]);
            assert(cs.skip(1)[j] == cs[j + 1]);
        }
    }
    if k == 0 {
        lemma_merged(b1, cs.skip(1));
        assert(has_id(b1, cs[0].id));
        assert forall|i: int| 0 <= i < cs.skip(1).len() implies cs.skip(1)[i].id != cs[0].id by {
            assert(cs.skip(1)[i] == cs[i + 1]);
        }
        assert(lookup(merged(b1, cs.skip(1)), cs[0].id) == lookup(b1, cs[0].id));
        lemma_merged(base, cs);
    } else {
        assert(cs.skip(1)[k - 1] == cs[k]);
        lemma_merged_lookup_custom(b1, cs.skip(1), k - 1);
    }
}

/// Law: a user-defined profile overrides any seeded entry with its id, so a
/// load hands the user's profile back for that id (for user lists whose own
/// ids are pairwise distinct).
pub proof fn lemma_custom_overrides(customs: Seq<ProfileView>, k: int)
    requires
        ids_unique(customs),
        0 <= k < customs.len(),
    ensures
        has_id(full_registry(customs), customs[k].id),
        lookup(full_registry(customs), customs[k].id) == customs[k],
{
    lemma_builtin_ids();
    assert(ids_unique(builtin_profiles()));
    lemma_merged_lookup_custom(builtin_profiles(), customs, k);
}

/// Law: a built-in id that no user-defined profile carries keeps its seeded
/// profile after a load.
pub proof fn lemma_builtin_survives(customs: Seq<ProfileView>, k: int)
    requires
        0 <= k < 6,
        forall|i: int| 0 <= i < customs.len() ==> customs[i].id != builtin_ids()[k],
    ensures
        lookup(full_registry(customs), builtin_ids()[k]) == builtin_profiles()[k],
{
    lemma_builtin_ids();
    assert(ids_unique(builtin_profiles()));
    lemma_merged(builtin_profiles(), customs);
    lemma_lookup_at(builtin_profiles(), k);
    assert(builtin_profiles()[k].id == builtin_ids()[k]);
    assert(has_id(builtin_profiles(), builtin_ids()[k]));
}

/// Law: whatever the user-defined profiles, a freshly loaded registry has
/// unique ids and contains every one of the six built-in ids.
pub proof fn lemma_builtins_always_present(customs: Seq<ProfileView>)
    ensures
        ids_unique(full_registry(customs)),
        forall|k: int| 0 <= k < 6 ==> has_id(full_registry(customs), builtin_ids()[k]),
{
    lemma_builtin_ids();
    assert(ids_unique(builtin_profiles()));
    lemma_merged(builtin_profiles(), customs);
    assert forall|k: int| 0 <= k < 6 implies has_id(full_registry(customs), builtin_ids()[k]) by {
        assert(builtin_profiles()[k].id == builtin_ids()[k]);
        assert(has_id(builtin_profiles(), builtin_ids()[k]));
    }
}

/// The concurrent-safe profile collection: id-to-profile mapping whose
/// contents are replaced wholesale on reload.
pub struct Registry {
    profiles: Vec<Profile>,
}

impl View for Registry {
    type V = Seq<ProfileView>;

    closed spec fn view(&self) -> Seq<ProfileView> {
        self.profiles.deep_view()
    }
}

/// Overwrite the entry with `p`'s id, or append `p`.
fn upsert_profile(profiles: &mut Vec<Profile>, p: Profile)
    requires
        ids_unique(old(profiles).deep_view()),
    ensures
        final(profiles).deep_view() == upsert(old(profiles).deep_view(), p@),
        ids_unique(final(profiles).deep_view()),
{
    let ghost s = profiles.deep_view();
    let n = profiles.len();
    let mut k: usize = 0;
    while k < n
        invariant
            k <= n,
            n == profiles.len(),
            s == old(profiles).deep_view(),
            profiles.deep_view() == s,
            ids_unique(s),
            forall|i: int| 0 <= i < k ==> s[i].id != p@.id,
        decreases n - k,
    {
        if str_eq(profiles[k].id.as_str(), p.id.as_str()) {
            assert(s[k as int].id == p@.id);
            assert(has_id(s, p@.id));
            proof {
                lemma_upsert(s, p@);
                let w = the_idx(s, p@.id);
                assert(0 <= w < s.len() && s[w].id == p@.id);
                assert(w == k);
            }
            profiles.set(k, p);
            assert(profiles.deep_view() =~= s.update(k as int, p@));
            return ;
        }
        k = k + 1;
    }
    assert(!has_id(s, p@.id)) by {
        if has_id(s, p@.id) {
            let w = choose|i: int| 0 <= i < s.len() && s[i].id == p@.id;
            assert(s[w].id != p@.id);
        }
    }
    proof {
        lemma_upsert(s, p@);
    }
    profiles.push(p);
    assert(profiles.deep_view() =~= s.push(p@));
}

impl Registry {
    /// Unique ids: the registry's well-formedness invariant.
    pub open spec fn wf(&self) -> bool {
        ids_unique(self@)
    }

    /// Seed the six built-in profiles, then insert every user-defined
    /// profile, overwriting on id collision.
    pub fn load(custom_profiles: &Vec<Profile>) -> (r: Registry)
        ensures
            r@ == full_registry(custom_profiles.deep_view()),
            r.wf(),
    {
        let ghost cs = custom_profiles.deep_view();
        let mut profiles = get_built_in_profiles();
        let n = custom_profiles.len();
        proof {
            assert(cs.skip(0) =~= cs);
            lemma_builtin_ids();
            assert(ids_unique(profiles.deep_view()));
        }
        let mut i: usize = 0;
        while i < n
            invariant
                i <= n,
                n == custom_profiles.len(),
                cs == custom_profiles.deep_view(),
                ids_unique(profiles.deep_view()),
                full_registry(cs) == merged(profiles.deep_view(), cs.skip(i as int)),
            decreases n - i,
        {
            let ghost acc = profiles.deep_view();
            let ghost t = cs.skip(i as int);
            proof {
                assert(t[0] == cs[i as int]);
                assert(t.skip(1) =~= cs.skip(i + 1));
                assert(merged(acc, t) == merged(upsert(acc, cs[i as int]), cs.skip(i + 1)));
            }
            upsert_profile(&mut profiles, custom_profiles[i].clone());
            i = i + 1;
        }
        proof {
            assert(cs.skip(n as int) =~= Seq::<ProfileView>::empty());
            assert(merged(profiles.deep_view(), Seq::<ProfileView>::empty())
                == profiles.deep_view());
            lemma_builtins_always_present(cs);
        }
        Registry { profiles }
    }

    /// Atomically replace the whole mapping with a fresh load.
    pub fn reload_profiles(&mut self, custom_profiles: &Vec<Profile>)
        ensures
            final(self)@ == full_registry(custom_profiles.deep_view()),
            final(self).wf(),
    {
        *self = Registry::load(custom_profiles);
    }

    /// Look an id up; `None` exactly when no profile has it.
    pub fn get(&self, id: &str) -> (r: Option<Profile>)
        requires
            self.wf(),
        ensures
            match r {
                Some(p) => has_id(self@, id@) && p@ == lookup(self@, id@),
                None => !has_id(self@, id@),
            },
    {
        let ghost s = self@;
        let n = self.profiles.len();
        let mut k: usize = 0;
        while k < n
            invariant
                k <= n,
                n == self.profiles.len(),
                s == self@,
                ids_unique(s),
                forall|i: int| 0 <= i < k ==> s[i].id != id@,
            decreases n - k,
        {
            if str_eq(self.profiles[k].id.as_str(), id) {
                assert(s[k as int].id == id@);
                assert(has_id(s, id@));
                proof {
                    let w = the_idx(s, id@);
                    assert(0 <= w < s.len() && s[w].id == id@);
                    assert(w == k);
                }
                return Some(self.profiles[k].clone());
            }
            k = k + 1;
        }
        assert(!has_id(s, id@)) by {
            if has_id(s, id@) {
                let w = choose|i: int| 0 <= i < s.len() && s[i].id == id@;
                assert(s[w].id != id@);
            }
        }
        None
    }

    /// All profiles currently in the registry.
    pub fn list(&self) -> (r: Vec<Profile>)
        ensures
            r.deep_view() == self@,
    {
        let mut r: Vec<Profile> = Vec::new();
        let n = self.profiles.len();
        let mut k: usize = 0;
        while k < n
            invariant
                k <= n,
                n == self.profiles.len(),
                r.deep_view() =~= self@.take(k as int),
            decreases n - k,
        {
            let ghost r0 = r.deep_view();
            r.push(self.profiles[k].clone());
            proof {
                assert(r.deep_view() =~= r0.push(self@[k as int]));
                assert(r0.push(self@[k as int]) =~= self@.take(k + 1));
            }
            k = k + 1;
        }
        assert(self@.take(n as int) =~= self@);
        r
    }
}

} // verus!
