//! The orchestrator: the two request flows. `GetProfile` consults the profile
//! cache and falls back to the upstream profile source; `GetTranslatedProfile`
//! obtains the profile the same way, consults the translation cache, and falls
//! back to the upstream translation source with the routed style. The upstream
//! calls themselves are the caller's: the functions here take each call's
//! outcome as a value and perform every decision and cache change around it.

use vstd::prelude::*;
use crate::cache::{get_translation_from_cache, ProfileCache, TranslationCache};
use crate::profile::{
    derive_profile, spec_derive_profile, spec_with_description, Profile, ProfileView, RawProfile,
    RawProfileView,
};
use crate::routing::{select_style, spec_select_style, Style};

verus! {

/// The one failure a profile query surfaces: upstream reports the name
/// unknown, the profile lacks a habitat, or the fetch fails in any other way.
#[derive(Clone, Copy, Debug, PartialEq, Eq, Structural)]
pub enum ProfileError {
    NotFound,
}

/// The one failure a translation query surfaces: upstream reports its quota
/// exhausted, or the fetch fails in any other way.
#[derive(Clone, Copy, Debug, PartialEq, Eq, Structural)]
pub enum TranslationError {
    RateLimited,
}

/// The failures `GetTranslatedProfile` surfaces: those of its profile stage
/// and those of its translation stage.
#[derive(Clone, Copy, Debug, PartialEq, Eq, Structural)]
pub enum TranslatedProfileError {
    Profile(ProfileError),
    Translation(TranslationError),
}

/// What the upstream profile source reported for a name.
pub enum FetchProfileOutcome {
    Found(RawProfile),
    NotFound,
    Error,
}

/// The mathematical value of a `FetchProfileOutcome`.
pub enum FetchProfileOutcomeView {
    Found(RawProfileView),
    NotFound,
    Error,
}

impl View for FetchProfileOutcome {
    type V = FetchProfileOutcomeView;

    open spec fn view(&self) -> FetchProfileOutcomeView {
        match self {
            FetchProfileOutcome::Found(raw) => FetchProfileOutcomeView::Found(raw@),
            FetchProfileOutcome::NotFound => FetchProfileOutcomeView::NotFound,
            FetchProfileOutcome::Error => FetchProfileOutcomeView::Error,
        }
    }
}

/// What the upstream translation source reported for a description.
pub enum TranslationOutcome {
    Translated(String),
    RateLimited,
    Error,
}

/// The mathematical value of a `TranslationOutcome`.
pub enum TranslationOutcomeView {
    Translated(Seq<char>),
    RateLimited,
    Error,
}

impl View for TranslationOutcome {
    type V = TranslationOutcomeView;

    open spec fn view(&self) -> TranslationOutcomeView {
        match self {
            TranslationOutcome::Translated(t) => TranslationOutcomeView::Translated(t@),
            TranslationOutcome::RateLimited => TranslationOutcomeView::RateLimited,
            TranslationOutcome::Error => TranslationOutcomeView::Error,
        }
    }
}

/// The cache and result of `GetProfile` once upstream has answered: a
/// successful fetch derives the profile and caches it under the queried name;
/// a not-found report, any other fetch failure, and a profile without a
/// habitat cache nothing and surface `NotFound`.
pub open spec fn spec_resolve_profile(
    cache: Map<Seq<char>, ProfileView>,
    name: Seq<char>,
    outcome: FetchProfileOutcomeView,
) -> (Map<Seq<char>, ProfileView>, Result<ProfileView, ProfileError>) {
    match outcome {
        FetchProfileOutcomeView::Found(raw) => match spec_derive_profile(raw) {
            Some(p) => (cache.insert(name, p), Ok(p)),
            None => (cache, Err(ProfileError::NotFound)),
        },
        _ => (cache, Err(ProfileError::NotFound)),
    }
}

/// Whether `GetProfile` must call the upstream source: exactly on a cache
/// miss.
pub open spec fn spec_profile_needs_fetch(
    cache: Map<Seq<char>, ProfileView>,
    name: Seq<char>,
) -> bool {
    !cache.contains_key(name)
}

/// The whole `GetProfile` flow: a cache hit answers at once with the cached
/// profile and no upstream call; a miss consults upstream and resolves the
/// outcome.
pub open spec fn spec_get_profile(
    cache: Map<Seq<char>, ProfileView>,
    name: Seq<char>,
    outcome: FetchProfileOutcomeView,
) -> (Map<Seq<char>, ProfileView>, Result<ProfileView, ProfileError>) {
    if cache.contains_key(name) {
        (cache, Ok(cache[name]))
    } else {
        spec_resolve_profile(cache, name, outcome)
    }
}

/// Finishes `GetProfile` after the upstream call. On success the derived
/// profile is cached under the queried name and returned; on a not-found
/// report, any other fetch failure, or a profile without a habitat, nothing is
/// cached and `NotFound` is surfaced.
pub fn resolve_profile_fetch(
    cache: &mut ProfileCache,
    pokemon_name: &str,
    outcome: FetchProfileOutcome,
) -> (r: Result<Profile, ProfileError>)
    ensures
        ({
            let (m, rv) = spec_resolve_profile(old(cache)@, pokemon_name@, outcome@);
            &&& final(cache)@ == m
            &&& match r {
                Ok(p) => rv == Ok::<ProfileView, ProfileError>(p@),
                Err(e) => rv == Err::<ProfileView, ProfileError>(e),
            }
        }),
{
    match outcome {
        FetchProfileOutcome::Found(raw) => match derive_profile(raw) {
            Some(p) => {
                let served = p.clone();
                cache.put(pokemon_name.to_owned(), p);
                Ok(served)
            },
            None => Err(ProfileError::NotFound),
        },
        _ => Err(ProfileError::NotFound),
    }
}

/// What `GetTranslatedProfile` does once the profile is in hand: answer from
/// the translation cache, or call upstream with a routed style.
pub enum TranslationPlan {
    Cached(Profile),
    Fetch(Style),
}

/// The mathematical value of a `TranslationPlan`.
pub enum TranslationPlanView {
    Cached(ProfileView),
    Fetch(Style),
}

impl View for TranslationPlan {
    type V = TranslationPlanView;

    open spec fn view(&self) -> TranslationPlanView {
        match self {
            TranslationPlan::Cached(p) => TranslationPlanView::Cached(p@),
            TranslationPlan::Fetch(style) => TranslationPlanView::Fetch(*style),
        }
    }
}

/// The translation-cache decision: a cached translated description is spliced
/// into a copy of the profile and answers the request with no upstream call,
/// whatever the profile's current description; otherwise the routing rule
/// picks the style for an upstream translation call.
pub open spec fn spec_plan_translation(
    profile: ProfileView,
    name: Seq<char>,
    translations: Map<Seq<char>, Seq<char>>,
) -> TranslationPlanView {
    if translations.contains_key(name) {
        TranslationPlanView::Cached(spec_with_description(profile, translations[name]))
    } else {
        TranslationPlanView::Fetch(spec_select_style(profile.habitat, profile.is_legendary))
    }
}

/// Decides how `GetTranslatedProfile` proceeds once the profile is in hand:
/// a translation cached under the name answers at once; otherwise the routing
/// rule selects the style for the upstream call.
pub fn plan_translation(
    profile: &Profile,
    pokemon_name: &str,
    cache: &TranslationCache,
) -> (r: TranslationPlan)
    ensures
        r@ == spec_plan_translation(profile@, pokemon_name@, cache@),
{
    match get_translation_from_cache(pokemon_name, cache) {
        Some(t) => TranslationPlan::Cached(profile.with_description(t)),
        None => TranslationPlan::Fetch(
            select_style(profile.habitat.as_str(), profile.is_legendary),
        ),
    }
}

/// The cache and result of `GetTranslatedProfile` once the upstream
/// translation source has answered: a translation is cached under the queried
/// name and spliced into a copy of the profile; rate limiting and any other
/// failure cache nothing and surface `RateLimited` — the untranslated profile
/// is not returned as a fallback.
pub open spec fn spec_apply_translation(
    translations: Map<Seq<char>, Seq<char>>,
    name: Seq<char>,
    profile: ProfileView,
    outcome: TranslationOutcomeView,
) -> (Map<Seq<char>, Seq<char>>, Result<ProfileView, TranslationError>) {
    match outcome {
        TranslationOutcomeView::Translated(t) => (
            translations.insert(name, t),
            Ok(spec_with_description(profile, t)),
        ),
        _ => (translations, Err(TranslationError::RateLimited)),
    }
}

/// Finishes `GetTranslatedProfile` after the upstream translation call. On
/// success the translated description is cached under the queried name and
/// spliced into a copy of the profile; on rate limiting or any other failure
/// nothing is cached and `RateLimited` is surfaced.
pub fn apply_translation(
    cache: &mut TranslationCache,
    pokemon_name: &str,
    profile: &Profile,
    outcome: TranslationOutcome,
) -> (r: Result<Profile, TranslationError>)
    ensures
        ({
            let (m, rv) = spec_apply_translation(old(cache)@, pokemon_name@, profile@, outcome@);
            &&& final(cache)@ == m
            &&& match r {
                Ok(p) => rv == Ok::<ProfileView, TranslationError>(p@),
                Err(e) => rv == Err::<ProfileView, TranslationError>(e),
            }
        }),
{
    match outcome {
        TranslationOutcome::Translated(t) => {
            let served = profile.with_description(t.clone());
            cache.put(pokemon_name.to_owned(), t);
            Ok(served)
        },
        _ => Err(TranslationError::RateLimited),
    }
}

/// The whole `GetTranslatedProfile` flow: the profile comes from the same
/// cache-or-fetch path as `GetProfile` and its failure propagates at once; a
/// cached translation then answers without an upstream translation call;
/// otherwise the outcome of the routed upstream call is applied.
pub open spec fn spec_get_translated_profile(
    profiles: Map<Seq<char>, ProfileView>,
    translations: Map<Seq<char>, Seq<char>>,
    name: Seq<char>,
    profile_outcome: FetchProfileOutcomeView,
    translation_outcome: TranslationOutcomeView,
) -> (Map<Seq<char>, ProfileView>, Map<Seq<char>, Seq<char>>, Result<
    ProfileView,
    TranslatedProfileError,
>) {
    let (profiles2, pr) = spec_get_profile(profiles, name, profile_outcome);
    match pr {
        Ok(p) => match spec_plan_translation(p, name, translations) {
            TranslationPlanView::Cached(served) => (profiles2, translations, Ok(served)),
            TranslationPlanView::Fetch(_) => {
                let (translations2, tr) = spec_apply_translation(
                    translations,
                    name,
                    p,
                    translation_outcome,
                );
                match tr {
                    Ok(served) => (profiles2, translations2, Ok(served)),
                    Err(e) => (
                        profiles2,
                        translations2,
                        Err(TranslatedProfileError::Translation(e)),
                    ),
                }
            },
        },
        Err(e) => (profiles2, translations, Err(TranslatedProfileError::Profile(e))),
    }
}

/// Law: a served translated profile alters only the description: its name,
/// habitat and legendary flag are exactly those of the profile the flow
/// obtained for the name, whichever style was requested upstream.
pub proof fn lemma_translated_profile_keeps_fields(
    profiles: Map<Seq<char>, ProfileView>,
    translations: Map<Seq<char>, Seq<char>>,
    name: Seq<char>,
    profile_outcome: FetchProfileOutcomeView,
    translation_outcome: TranslationOutcomeView,
)
    ensures
        ({
            let (_, pr) = spec_get_profile(profiles, name, profile_outcome);
            let (_, _, r) = spec_get_translated_profile(
                profiles,
                translations,
                name,
                profile_outcome,
                translation_outcome,
            );
            r matches Ok(served) ==> {
                &&& pr matches Ok(p)
                &&& served.name == pr->Ok_0.name
                &&& served.habitat == pr->Ok_0.habitat
                &&& served.is_legendary == pr->Ok_0.is_legendary
            }
        }),
{
}

/// Law: once `GetProfile` has answered a name successfully, a second call for
/// the same name needs no upstream fetch, changes nothing, and returns the
/// identical profile, whatever the second upstream outcome would have been.
pub proof fn lemma_get_profile_idempotent(
    cache: Map<Seq<char>, ProfileView>,
    name: Seq<char>,
    first: FetchProfileOutcomeView,
    second: FetchProfileOutcomeView,
)
    ensures
        ({
            let (cache1, r1) = spec_get_profile(cache, name, first);
            let (cache2, r2) = spec_get_profile(cache1, name, second);
            r1 is Ok ==> {
                &&& !spec_profile_needs_fetch(cache1, name)
                &&& r2 == r1
                &&& cache2 == cache1
            }
        }),
{
}

/// Law: a profile query that upstream cannot satisfy — the name unknown, the
/// fetch failed, or the reported profile without a habitat — surfaces
/// `NotFound` and inserts nothing: the profile cache is left as it was.
pub proof fn lemma_failed_fetch_caches_nothing(
    cache: Map<Seq<char>, ProfileView>,
    name: Seq<char>,
    outcome: FetchProfileOutcomeView,
)
    requires
        !(outcome matches FetchProfileOutcomeView::Found(raw) && spec_derive_profile(raw) is Some),
    ensures
        spec_resolve_profile(cache, name, outcome) == (
            cache,
            Err::<ProfileView, ProfileError>(ProfileError::NotFound),
        ),
{
}

/// Law: a profile whose habitat is "cave" is routed to the Yoda style whenever
/// `GetTranslatedProfile` calls the upstream translation source; the
/// Shakespeare style is never requested for it.
pub proof fn lemma_cave_routes_to_yoda(
    profile: ProfileView,
    name: Seq<char>,
    translations: Map<Seq<char>, Seq<char>>,
)
    requires
        profile.habitat == "cave"@,
    ensures
        spec_plan_translation(profile, name, translations) matches TranslationPlanView::Fetch(
            style,
        ) ==> style == Style::Yoda,
{
}

/// Law: a rate-limited (or otherwise failed) translation surfaces the error,
/// leaves the translation cache as it was, and so a later request for a name
/// that was never translated still plans an upstream call.
pub proof fn lemma_failed_translation_retries(
    translations: Map<Seq<char>, Seq<char>>,
    name: Seq<char>,
    profile: ProfileView,
    outcome: TranslationOutcomeView,
    later_profile: ProfileView,
)
    requires
        !(outcome matches TranslationOutcomeView::Translated(_)),
        !translations.contains_key(name),
    ensures
        ({
            let (translations2, r) = spec_apply_translation(translations, name, profile, outcome);
            &&& r == Err::<ProfileView, TranslationError>(TranslationError::RateLimited)
            &&& translations2 == translations
            &&& spec_plan_translation(
                later_profile,
                name,
                translations2,
            ) matches TranslationPlanView::Fetch(_)
        }),
{
}

} // verus!
