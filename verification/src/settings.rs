//! The externally persisted settings record and the validated operations
//! that create, update and delete user-defined profiles in it.
use vstd::prelude::*;

verus! {

use vstd::string::StringExecFns;
use crate::backend::ApiType;
use crate::errors::SummarizeError;
use crate::profile::Profile;
use crate::profile::ProfileView;
use crate::profile::placeholder;
use crate::registry::has_id;
use crate::text::contains_seq;
use crate::text::contains_str;
use crate::text::str_eq;

/// The settings record the configuration store persists; consumed here.
pub struct AppSettings {
    pub enable_summarization: bool,
    pub active_profile_id: String,
    pub llm_endpoint: String,
    pub llm_model: String,
    pub llm_api_type: ApiType,
    pub llm_timeout_seconds: u64,
    pub custom_profiles: Vec<Profile>,
}

/// A profile that may be saved: non-empty id, non-empty name, and a
/// user-prompt template carrying the `{transcription}` placeholder.
pub open spec fn save_valid(p: ProfileView) -> bool {
    p.id.len() > 0 && p.name.len() > 0 && contains_seq(p.user_prompt_template, placeholder())
}

/// `k` is the position of the first profile in `cs` with id `id`.
pub open spec fn is_first_with_id(cs: Seq<ProfileView>, id: Seq<char>, k: int) -> bool {
    0 <= k < cs.len() && cs[k].id == id && (forall|j: int| 0 <= j < k ==> cs[j].id != id)
}

/// The position of the first profile in `cs` with id `id` (meaningful when
/// one exists).
pub open spec fn first_with_id(cs: Seq<ProfileView>, id: Seq<char>) -> int {
    choose|k: int| is_first_with_id(cs, id, k)
}

/// `cs` with every profile of id `id` removed, order kept.
pub open spec fn remove_id(cs: Seq<ProfileView>, id: Seq<char>) -> Seq<ProfileView>
    decreases cs.len(),
{
    if cs.len() == 0 {
        cs
    } else if cs[0].id == id {
        remove_id(cs.skip(1), id)
    } else {
        seq![cs[0]] + remove_id(cs.skip(1), id)
    }
}

/// A delete of `id` is rejected: the first stored profile with that id is
/// flagged built-in.
pub open spec fn delete_rejected(cs: Seq<ProfileView>, id: Seq<char>) -> bool {
    exists|k: int| is_first_with_id(cs, id, k) && cs[k].is_built_in
}

proof fn lemma_first_unique(cs: Seq<ProfileView>, id: Seq<char>, k: int)
    requires
        is_first_with_id(cs, id, k),
    ensures
        first_with_id(cs, id) == k,
{
    let w = first_with_id(cs, id);
    assert(is_first_with_id(cs, id, w));
    if w < k {
        assert(cs[w].id != id);
    }
    if k < w {
        assert(cs[k].id != id);
    }
}

/// Find the position of the first profile with id `id`, if any.
fn find_first_with_id(profiles: &Vec<Profile>, id: &str) -> (r: Option<usize>)
    ensures
        match r {
            Some(k) => k < profiles.len() && is_first_with_id(
                profiles.deep_view(),
                id@,
                k as int,
            ),
            None => !has_id(profiles.deep_view(), id@),
        },
{
    let ghost cs = profiles.deep_view();
    let n = profiles.len();
    let mut k: usize = 0;
    while k < n
        invariant
            k <= n,
            cs == profiles.deep_view(),
            n == profiles.len(),
            forall|j: int| 0 <= j < k ==> cs[j].id != id@,
        decreases n - k,
    {
        if str_eq(profiles[k].id.as_str(), id) {
            assert(is_first_with_id(cs, id@, k as int));
            return Some(k);
        }
        k = k + 1;
    }
    assert(!has_id(cs, id@)) by {
        if has_id(cs, id@) {
            let w = choose|i: int| 0 <= i < cs.len() && cs[i].id == id@;
            assert(cs[w].id != id@);
        }
    }
    None
}

/// Validate `profile` and store it: overwrite the first stored profile with
/// the same id, else append it. On a validation error the settings are left
/// unchanged.
pub fn save_custom_profile(settings: &mut AppSettings, profile: Profile) -> (r: Result<
    (),
    SummarizeError,
>)
    ensures
        profile@.id.len() == 0 ==> (r matches Err(SummarizeError::Validation(m)) && m@
            == "Profile ID cannot be empty"@ && *final(settings) == *old(settings)),
        profile@.id.len() > 0 && profile@.name.len() == 0 ==> (r matches Err(
            SummarizeError::Validation(m),
        ) && m@ == "Profile name cannot be empty"@ && *final(settings) == *old(settings)),
        profile@.id.len() > 0 && profile@.name.len() > 0 && !contains_seq(
            profile@.user_prompt_template,
            placeholder(),
        ) ==> (r matches Err(SummarizeError::Validation(m)) && m@
            == "User prompt template must contain {transcription} placeholder"@ && *final(settings)
            == *old(settings)),
        save_valid(profile@) ==> {
            let cs = old(settings).custom_profiles.deep_view();
            &&& r matches Ok(_)
            &&& has_id(cs, profile@.id) ==> is_first_with_id(
                cs,
                profile@.id,
                first_with_id(cs, profile@.id),
            ) && final(settings).custom_profiles.deep_view() == cs.update(
                first_with_id(cs, profile@.id),
                profile@,
            )
            &&& !has_id(cs, profile@.id) ==> final(settings).custom_profiles.deep_view()
                == cs.push(profile@)
            &&& final(settings).enable_summarization == old(settings).enable_summarization
            &&& final(settings).active_profile_id == old(settings).active_profile_id
            &&& final(settings).llm_endpoint == old(settings).llm_endpoint
            &&& final(settings).llm_model == old(settings).llm_model
            &&& final(settings).llm_api_type == old(settings).llm_api_type
            &&& final(settings).llm_timeout_seconds == old(settings).llm_timeout_seconds
        },
{
    if profile.id.as_str().is_empty() {
        return Err(SummarizeError::Validation(String::from_str("Profile ID cannot be empty")));
    }
    if profile.name.as_str().is_empty() {
        return Err(SummarizeError::Validation(String::from_str("Profile name cannot be empty")));
    }
    proof {
        reveal_strlit("{transcription}");
    }
    if !contains_str(profile.user_prompt_template.as_str(), "{transcription}") {
        return Err(
            SummarizeError::Validation(
                String::from_str("User prompt template must contain {transcription} placeholder"),
            ),
        );
    }
    let ghost cs = settings.custom_profiles.deep_view();
    match find_first_with_id(&settings.custom_profiles, profile.id.as_str()) {
        Some(k) => {
            proof {
                assert(cs[k as int].id == profile@.id);
                assert(has_id(cs, profile@.id));
                lemma_first_unique(cs, profile@.id, k as int);
            }
            settings.custom_profiles.set(k, profile);
            assert(settings.custom_profiles.deep_view() =~= cs.update(k as int, profile@));
            Ok(())
        },
        None => {
            settings.custom_profiles.push(profile);
            assert(settings.custom_profiles.deep_view() =~= cs.push(profile@));
            Ok(())
        },
    }
}

/// Delete the stored profiles with id `profile_id`; reject the request when
/// the first such profile is flagged built-in, leaving the settings
/// unchanged. When the deleted id was the active one, the active id is
/// reset to `"raw"`.
pub fn delete_custom_profile(settings: &mut AppSettings, profile_id: &str) -> (r: Result<
    (),
    SummarizeError,
>)
    ensures
        delete_rejected(old(settings).custom_profiles.deep_view(), profile_id@) ==> (r matches Err(
            SummarizeError::Validation(m),
        ) && m@ == "Cannot delete built-in profile"@ && *final(settings) == *old(settings)),
        !delete_rejected(old(settings).custom_profiles.deep_view(), profile_id@) ==> {
            &&& r matches Ok(_)
            &&& final(settings).custom_profiles.deep_view() == remove_id(
                old(settings).custom_profiles.deep_view(),
                profile_id@,
            )
            &&& final(settings).active_profile_id@ == (if old(settings).active_profile_id@
                == profile_id@ {
                "raw"@
            } else {
                old(settings).active_profile_id@
            })
            &&& final(settings).enable_summarization == old(settings).enable_summarization
            &&& final(settings).llm_endpoint == old(settings).llm_endpoint
            &&& final(settings).llm_model == old(settings).llm_model
            &&& final(settings).llm_api_type == old(settings).llm_api_type
            &&& final(settings).llm_timeout_seconds == old(settings).llm_timeout_seconds
        },
{
    let ghost cs = settings.custom_profiles.deep_view();
    let n = settings.custom_profiles.len();
    match find_first_with_id(&settings.custom_profiles, profile_id) {
        Some(k) => {
            if settings.custom_profiles[k].is_built_in {
                assert(delete_rejected(cs, profile_id@));
                return Err(
                    SummarizeError::Validation(
                        String::from_str("Cannot delete built-in profile"),
                    ),
                );
            }
            proof {
                assert(!delete_rejected(cs, profile_id@)) by {
                    if delete_rejected(cs, profile_id@) {
                        let w = choose|i: int|
                            is_first_with_id(cs, profile_id@, i) && cs[i].is_built_in;
                        lemma_first_unique(cs, profile_id@, w);
                        lemma_first_unique(cs, profile_id@, k as int);
                    }
                }
            }
        },
        None => {
            proof {
                assert(!delete_rejected(cs, profile_id@)) by {
                    if delete_rejected(cs, profile_id@) {
                        let w = choose|i: int|
                            is_first_with_id(cs, profile_id@, i) && cs[i].is_built_in;
                        assert(cs[w].id == profile_id@);
                        assert(has_id(cs, profile_id@));
                    }
                }
            }
        },
    }
    let mut kept: Vec<Profile> = Vec::new();
    let mut i: usize = 0;
    proof {
        assert(cs.skip(0) =~= cs);
        assert(kept.deep_view() + remove_id(cs, profile_id@) =~= remove_id(cs, profile_id@));
    }
    while i < n
        invariant
            i <= n,
            *settings == *old(settings),
            cs == settings.custom_profiles.deep_view(),
            n == settings.custom_profiles.len(),
            remove_id(cs, profile_id@) == kept.deep_view() + remove_id(
                cs.skip(i as int),
                profile_id@,
            ),
        decreases n - i,
    {
        let ghost t = cs.skip(i as int);
        proof {
            assert(t[0] == cs[i as int]);
            assert(t.skip(1) =~= cs.skip(i + 1));
        }
        if !str_eq(settings.custom_profiles[i].id.as_str(), profile_id) {
            let ghost k0 = kept.deep_view();
            kept.push(settings.custom_profiles[i].clone());
            proof {
                assert(kept.deep_view() =~= k0.push(cs[i as int]));
                assert(remove_id(t, profile_id@) == seq![cs[i as int]] + remove_id(
                    cs.skip(i + 1),
                    profile_id@,
                ));
                assert(k0 + (seq![cs[i as int]] + remove_id(cs.skip(i + 1), profile_id@))
                    =~= kept.deep_view() + remove_id(cs.skip(i + 1), profile_id@));
            }
        } else {
            proof {
                assert(remove_id(t, profile_id@) == remove_id(cs.skip(i + 1), profile_id@));
            }
        }
        i = i + 1;
    }
    proof {
        assert(cs.skip(n as int) =~= Seq::<ProfileView>::empty());
        assert(remove_id(Seq::<ProfileView>::empty(), profile_id@)
            =~= Seq::<ProfileView>::empty());
        assert(kept.deep_view() + Seq::<ProfileView>::empty() =~= kept.deep_view());
    }
    settings.custom_profiles = kept;
    if str_eq(settings.active_profile_id.as_str(), profile_id) {
        settings.active_profile_id = String::from_str("raw");
    }
    Ok(())
}

} // verus!
