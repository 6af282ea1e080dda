use pokedex::cache::{get_pokemon_from_cache, ProfileCache, TranslationCache};
use pokedex::orchestrator::{
    apply_translation, plan_translation, resolve_profile_fetch, FetchProfileOutcome, ProfileError,
    TranslationError, TranslationOutcome, TranslationPlan,
};
use pokedex::profile::{FlavorEntry, Profile, RawProfile};
use pokedex::routing::Style;

const PIKACHU_DESCRIPTION: &str =
    "When several of these creatures gather, their electricity could build and cause lightning storms.";

const PIKACHU_TRANSLATION: &str =
    "At which hour several of these pokémon gather, their electricity couldst buildeth and cause lightning storms.";

fn raw_pikachu() -> RawProfile {
    RawProfile {
        name: "pikachu".to_string(),
        flavor_texts: vec![FlavorEntry {
            language: "en".to_string(),
            text: PIKACHU_DESCRIPTION.to_string(),
        }],
        habitat: Some("forest".to_string()),
        is_legendary: false,
    }
}

fn forest_profile() -> Profile {
    Profile {
        name: "pikachu".to_string(),
        description: PIKACHU_DESCRIPTION.to_string(),
        habitat: "forest".to_string(),
        is_legendary: false,
    }
}

fn cave_profile() -> Profile {
    Profile {
        name: "zubat".to_string(),
        description: "Forms colonies in perpetually dark places.".to_string(),
        habitat: "cave".to_string(),
        is_legendary: false,
    }
}

#[test]
fn successful_fetch_is_served_and_cached() {
    let mut cache = ProfileCache::new();
    let served = resolve_profile_fetch(
        &mut cache,
        "pikachu",
        FetchProfileOutcome::Found(raw_pikachu()),
    )
    .unwrap();
    assert_eq!(served.name, "pikachu");
    assert_eq!(served.description, PIKACHU_DESCRIPTION);
    assert_eq!(served.habitat, "forest");
    assert!(!served.is_legendary);

    // The second request is a pure cache hit and returns the identical profile.
    let from_cache = get_pokemon_from_cache("pikachu", &cache).unwrap();
    assert_eq!(from_cache, served);
}

#[test]
fn not_found_fetch_caches_nothing() {
    let mut profiles = ProfileCache::new();
    let translations = TranslationCache::new();
    let result = resolve_profile_fetch(&mut profiles, "NoPokemon", FetchProfileOutcome::NotFound);
    assert_eq!(result.unwrap_err(), ProfileError::NotFound);
    assert!(profiles.get("NoPokemon").is_none());
    assert!(translations.get("NoPokemon").is_none());
}

#[test]
fn failed_fetch_caches_nothing() {
    let mut profiles = ProfileCache::new();
    let result = resolve_profile_fetch(&mut profiles, "pikachu", FetchProfileOutcome::Error);
    assert_eq!(result.unwrap_err(), ProfileError::NotFound);
    assert!(profiles.get("pikachu").is_none());
}

#[test]
fn fetch_without_habitat_caches_nothing() {
    let mut profiles = ProfileCache::new();
    let mut raw = raw_pikachu();
    raw.habitat = None;
    let result = resolve_profile_fetch(&mut profiles, "pikachu", FetchProfileOutcome::Found(raw));
    assert_eq!(result.unwrap_err(), ProfileError::NotFound);
    assert!(profiles.get("pikachu").is_none());
}

#[test]
fn forest_profile_is_translated_with_shakespeare() {
    let mut translations = TranslationCache::new();
    let profile = forest_profile();

    let plan = plan_translation(&profile, "pikachu", &translations);
    match plan {
        TranslationPlan::Fetch(style) => assert_eq!(style, Style::Shakespeare),
        TranslationPlan::Cached(_) => panic!("an empty cache cannot answer"),
    }

    let served = apply_translation(
        &mut translations,
        "pikachu",
        &profile,
        TranslationOutcome::Translated(PIKACHU_TRANSLATION.to_string()),
    )
    .unwrap();
    assert_eq!(served.name, "pikachu");
    assert_eq!(served.habitat, "forest");
    assert!(!served.is_legendary);
    assert_eq!(served.description, PIKACHU_TRANSLATION);
    assert_eq!(translations.get("pikachu").unwrap(), PIKACHU_TRANSLATION);
}

#[test]
fn cave_profile_is_routed_to_yoda() {
    let translations = TranslationCache::new();
    let plan = plan_translation(&cave_profile(), "zubat", &translations);
    match plan {
        TranslationPlan::Fetch(style) => assert_eq!(style, Style::Yoda),
        TranslationPlan::Cached(_) => panic!("an empty cache cannot answer"),
    }
}

#[test]
fn legendary_profile_is_routed_to_yoda() {
    let translations = TranslationCache::new();
    let mewtwo = Profile {
        name: "mewtwo".to_string(),
        description: "It was created by a scientist.".to_string(),
        habitat: "rare".to_string(),
        is_legendary: true,
    };
    let plan = plan_translation(&mewtwo, "mewtwo", &translations);
    match plan {
        TranslationPlan::Fetch(style) => assert_eq!(style, Style::Yoda),
        TranslationPlan::Cached(_) => panic!("an empty cache cannot answer"),
    }
}

#[test]
fn rate_limited_translation_fails_and_caches_nothing() {
    let mut translations = TranslationCache::new();
    let profile = forest_profile();

    let result = apply_translation(
        &mut translations,
        "pikachu",
        &profile,
        TranslationOutcome::RateLimited,
    );
    assert_eq!(result.unwrap_err(), TranslationError::RateLimited);
    assert!(translations.get("pikachu").is_none());

    // Nothing was cached, so a later request plans the upstream call again,
    // and succeeds once the limit has cleared.
    let plan = plan_translation(&profile, "pikachu", &translations);
    assert!(matches!(plan, TranslationPlan::Fetch(Style::Shakespeare)));
    let served = apply_translation(
        &mut translations,
        "pikachu",
        &profile,
        TranslationOutcome::Translated(PIKACHU_TRANSLATION.to_string()),
    )
    .unwrap();
    assert_eq!(served.description, PIKACHU_TRANSLATION);
}

#[test]
fn other_translation_failures_are_reported_as_rate_limiting() {
    let mut translations = TranslationCache::new();
    let result = apply_translation(
        &mut translations,
        "pikachu",
        &forest_profile(),
        TranslationOutcome::Error,
    );
    assert_eq!(result.unwrap_err(), TranslationError::RateLimited);
    assert!(translations.get("pikachu").is_none());
}

#[test]
fn cached_translation_answers_without_an_upstream_call() {
    let mut translations = TranslationCache::new();
    translations.put("pikachu".to_string(), PIKACHU_TRANSLATION.to_string());

    // The cached entry is keyed by name and answers even for a profile whose
    // description has changed since it was translated.
    let refreshed = forest_profile().with_description("A refreshed description.".to_string());
    let plan = plan_translation(&refreshed, "pikachu", &translations);
    match plan {
        TranslationPlan::Cached(served) => {
            assert_eq!(served.name, "pikachu");
            assert_eq!(served.habitat, "forest");
            assert!(!served.is_legendary);
            assert_eq!(served.description, PIKACHU_TRANSLATION);
        },
        TranslationPlan::Fetch(_) => panic!("a warm cache must answer"),
    }
}
