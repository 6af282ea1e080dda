//! Creature profiles and the raw upstream data they are derived from.

use vstd::prelude::*;
use crate::text::{normalize_description, normalized, str_eq};

verus! {

/// One localized description of a creature, as the upstream profile source
/// reports it: a language tag and the text in that language.
pub struct FlavorEntry {
    pub language: String,
    pub text: String,
}

/// The mathematical value of a `FlavorEntry`.
pub struct FlavorEntryView {
    pub language: Seq<char>,
    pub text: Seq<char>,
}

impl View for FlavorEntry {
    type V = FlavorEntryView;

    open spec fn view(&self) -> FlavorEntryView {
        FlavorEntryView { language: self.language@, text: self.text@ }
    }
}

impl DeepView for FlavorEntry {
    type V = FlavorEntryView;

    open spec fn deep_view(&self) -> FlavorEntryView {
        self.view()
    }
}

/// What the upstream profile source hands back for a creature that exists:
/// its name, its localized descriptions, an optional habitat, and the
/// legendary flag.
pub struct RawProfile {
    pub name: String,
    pub flavor_texts: Vec<FlavorEntry>,
    pub habitat: Option<String>,
    pub is_legendary: bool,
}

/// The mathematical value of a `RawProfile`.
pub struct RawProfileView {
    pub name: Seq<char>,
    pub flavor_texts: Seq<FlavorEntryView>,
    pub habitat: Option<Seq<char>>,
    pub is_legendary: bool,
}

impl View for RawProfile {
    type V = RawProfileView;

    open spec fn view(&self) -> RawProfileView {
        RawProfileView {
            name: self.name@,
            flavor_texts: self.flavor_texts.deep_view(),
            habitat: self.habitat.deep_view(),
            is_legendary: self.is_legendary,
        }
    }
}

/// One creature query result: the canonical profile served to callers.
#[derive(Debug)]
pub struct Profile {
    pub name: String,
    pub description: String,
    pub habitat: String,
    pub is_legendary: bool,
}

/// The mathematical value of a `Profile`.
pub struct ProfileView {
    pub name: Seq<char>,
    pub description: Seq<char>,
    pub habitat: Seq<char>,
    pub is_legendary: bool,
}

impl View for Profile {
    type V = ProfileView;

    open spec fn view(&self) -> ProfileView {
        ProfileView {
            name: self.name@,
            description: self.description@,
            habitat: self.habitat@,
            is_legendary: self.is_legendary,
        }
    }
}

impl Clone for Profile {
    fn clone(&self) -> (r: Self)
        ensures
            r == *self,
    {
        Profile {
            name: self.name.clone(),
            description: self.description.clone(),
            habitat: self.habitat.clone(),
            is_legendary: self.is_legendary,
        }
    }
}

impl PartialEq for Profile {
    fn eq(&self, other: &Self) -> (r: bool) {
        self.name == other.name && self.description == other.description && self.habitat
            == other.habitat && self.is_legendary == other.is_legendary
    }
}

impl vstd::std_specs::cmp::PartialEqSpecImpl for Profile {
    open spec fn obeys_eq_spec() -> bool {
        true
    }

    open spec fn eq_spec(&self, other: &Self) -> bool {
        self@ == other@
    }
}

/// A profile view with its description replaced and every other field kept.
pub open spec fn spec_with_description(p: ProfileView, description: Seq<char>) -> ProfileView {
    ProfileView {
        name: p.name,
        description,
        habitat: p.habitat,
        is_legendary: p.is_legendary,
    }
}

impl Profile {
    /// A copy of the profile whose description is replaced; name, habitat and
    /// the legendary flag are kept as they are.
    pub fn with_description(&self, description: String) -> (r: Profile)
        ensures
            r@ == spec_with_description(self@, description@),
    {
        Profile {
            name: self.name.clone(),
            description,
            habitat: self.habitat.clone(),
            is_legendary: self.is_legendary,
        }
    }
}

/// The text of the first entry whose language tag is exactly "en"; the empty
/// sequence when no entry matches.
pub open spec fn first_english(entries: Seq<FlavorEntryView>) -> Seq<char>
    decreases entries.len(),
{
    if entries.len() == 0 {
        Seq::empty()
    } else if entries[0].language == "en"@ {
        entries[0].text
    } else {
        first_english(entries.drop_first())
    }
}

/// The first english description among the localized entries, scanned in
/// order; the empty string when none carries the "en" tag.
pub fn get_english_description(entries: &Vec<FlavorEntry>) -> (r: String)
    ensures
        r@ == first_english(entries.deep_view()),
{
    let n = entries.len();
    proof {
        assert(entries.deep_view().skip(0) =~= entries.deep_view());
    }
    for i in 0..n
        invariant
            n == entries@.len(),
            first_english(entries.deep_view()) == first_english(
                entries.deep_view().skip(i as int),
            ),
    {
        proof {
            assert(entries.deep_view().skip(i as int)[0] == entries@[i as int]@);
        }
        if str_eq(entries[i].language.as_str(), "en") {
            return entries[i].text.clone();
        }
        proof {
            assert(entries.deep_view().skip(i as int).drop_first() =~= entries.deep_view().skip(
                i + 1,
            ));
        }
    }
    proof {
        assert(entries.deep_view().skip(n as int) =~= Seq::<FlavorEntryView>::empty());
    }
    String::new()
}

/// The profile derived from a successful upstream fetch: the first english
/// description, normalized; `None` when the habitat is missing, which the
/// proxy treats as an unrecoverable upstream condition.
pub open spec fn spec_derive_profile(raw: RawProfileView) -> Option<ProfileView> {
    match raw.habitat {
        Some(h) => Some(
            ProfileView {
                name: raw.name,
                description: normalized(first_english(raw.flavor_texts)),
                habitat: h,
                is_legendary: raw.is_legendary,
            },
        ),
        None => None,
    }
}

/// Derives the canonical profile from raw upstream data; fails exactly when
/// the habitat is absent.
pub fn derive_profile(raw: RawProfile) -> (r: Option<Profile>)
    ensures
        match r {
            Some(p) => spec_derive_profile(raw@) == Some(p@),
            None => spec_derive_profile(raw@) is None,
        },
{
    let RawProfile { name, flavor_texts, habitat, is_legendary } = raw;
    match habitat {
        Some(h) => {
            let english = get_english_description(&flavor_texts);
            let description = normalize_description(english.as_str());
            Some(Profile { name, description, habitat: h, is_legendary })
        },
        None => None,
    }
}

} // verus!
