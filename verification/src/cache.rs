//! The cache store: two independent key-value tables, profiles by name and
//! translated descriptions by name. Entries are never evicted; a later insert
//! for the same key overwrites (last writer wins). Callers that serve
//! concurrent requests guard each table with its own lock and hold it only
//! around a single lookup or insert, never across an upstream call.

use vstd::prelude::*;
use vstd::hash_map::StringHashMap;
use crate::profile::{Profile, ProfileView};

verus! {

/// The profile table: creature name (case-sensitive, the exact query string)
/// to the canonical profile.
pub struct ProfileCache {
    map: StringHashMap<Profile>,
}

impl View for ProfileCache {
    type V = Map<Seq<char>, ProfileView>;

    closed spec fn view(&self) -> Map<Seq<char>, ProfileView> {
        self.map@.map_values(|p: Profile| p@)
    }
}

impl ProfileCache {
    /// An empty table.
    pub fn new() -> (r: Self)
        ensures
            r@ == Map::<Seq<char>, ProfileView>::empty(),
    {
        let r = ProfileCache { map: StringHashMap::new() };
        proof {
            assert(r@ =~= Map::<Seq<char>, ProfileView>::empty());
        }
        r
    }

    /// Looks the name up; returns a copy of the cached profile when present.
    pub fn get(&self, name: &str) -> (r: Option<Profile>)
        ensures
            match r {
                Some(p) => self@.contains_key(name@) && p@ == self@[name@],
                None => !self@.contains_key(name@),
            },
    {
        match self.map.get(name) {
            Some(p) => Some(p.clone()),
            None => None,
        }
    }

    /// Inserts the profile under the name, overwriting any earlier entry.
    pub fn put(&mut self, name: String, profile: Profile)
        ensures
            final(self)@ == old(self)@.insert(name@, profile@),
    {
        self.map.insert(name, profile);
        proof {
            assert(self@ =~= old(self)@.insert(name@, profile@));
        }
    }
}

/// The translation table: creature name to the translated description string.
pub struct TranslationCache {
    map: StringHashMap<String>,
}

impl View for TranslationCache {
    type V = Map<Seq<char>, Seq<char>>;

    closed spec fn view(&self) -> Map<Seq<char>, Seq<char>> {
        self.map@.map_values(|s: String| s@)
    }
}

impl TranslationCache {
    /// An empty table.
    pub fn new() -> (r: Self)
        ensures
            r@ == Map::<Seq<char>, Seq<char>>::empty(),
    {
        let r = TranslationCache { map: StringHashMap::new() };
        proof {
            assert(r@ =~= Map::<Seq<char>, Seq<char>>::empty());
        }
        r
    }

    /// Looks the name up; returns a copy of the cached translated description
    /// when present.
    pub fn get(&self, name: &str) -> (r: Option<String>)
        ensures
            match r {
                Some(t) => self@.contains_key(name@) && t@ == self@[name@],
                None => !self@.contains_key(name@),
            },
    {
        match self.map.get(name) {
            Some(t) => Some(t.clone()),
            None => None,
        }
    }

    /// Inserts the translated description under the name, overwriting any
    /// earlier entry.
    pub fn put(&mut self, name: String, translation: String)
        ensures
            final(self)@ == old(self)@.insert(name@, translation@),
    {
        self.map.insert(name, translation);
        proof {
            assert(self@ =~= old(self)@.insert(name@, translation@));
        }
    }
}

/// Law: round trip — a profile inserted into the cache under a name and looked
/// up at once under that name comes back exactly as it was inserted.
pub proof fn lemma_cache_round_trip(
    cache: Map<Seq<char>, ProfileView>,
    name: Seq<char>,
    profile: ProfileView,
)
    ensures
        cache.insert(name, profile).contains_key(name),
        cache.insert(name, profile)[name] == profile,
{
}

/// Cache lookup for a profile, exactly as `ProfileCache::get`: the caller
/// falls back to the upstream source only on `None`.
pub fn get_pokemon_from_cache(pokemon_name: &str, cache: &ProfileCache) -> (r: Option<Profile>)
    ensures
        match r {
            Some(p) => cache@.contains_key(pokemon_name@) && p@ == cache@[pokemon_name@],
            None => !cache@.contains_key(pokemon_name@),
        },
{
    cache.get(pokemon_name)
}

/// Cache lookup for a translated description, exactly as
/// `TranslationCache::get`: the caller calls the upstream translation source
/// only on `None`.
pub fn get_translation_from_cache(pokemon_name: &str, cache: &TranslationCache) -> (r: Option<
    String,
>)
    ensures
        match r {
            Some(t) => cache@.contains_key(pokemon_name@) && t@ == cache@[pokemon_name@],
            None => !cache@.contains_key(pokemon_name@),
        },
{
    cache.get(pokemon_name)
}

} // verus!
