use pokedex::text::{normalize_description, str_eq};

#[test]
fn str_eq_equal_strings() {
    assert!(str_eq("pikachu", "pikachu"));
    assert!(str_eq("", ""));
    assert!(str_eq("POKéMON", "POKéMON"));
}

#[test]
fn str_eq_unequal_strings() {
    assert!(!str_eq("pikachu", "zubat"));
    assert!(!str_eq("cave", "caves"));
    assert!(!str_eq("caves", "cave"));
    assert!(!str_eq("Cave", "cave"));
    assert!(!str_eq("", "a"));
}

#[test]
fn normalize_replaces_newlines_with_spaces() {
    assert_eq!(normalize_description("a\nb"), "a b");
    assert_eq!(
        normalize_description(
            "When several of\nthese POKéMON\ngather, their\nelectricity could\nbuild and cause\nlightning storms."
        ),
        "When several of these POKéMON gather, their electricity could build and cause lightning storms."
    );
}

#[test]
fn normalize_replaces_form_feeds_with_spaces() {
    assert_eq!(normalize_description("a\x0Cb"), "a b");
    assert_eq!(
        normalize_description("Forms colonies in\x0Cperpetually dark places."),
        "Forms colonies in perpetually dark places."
    );
}

#[test]
fn normalize_collapses_space_runs() {
    assert_eq!(normalize_description("a  b"), "a b");
    assert_eq!(normalize_description("a \n b"), "a b");
    assert_eq!(normalize_description("a\n\nb"), "a b");
    assert_eq!(normalize_description("a    b   c"), "a b c");
}

#[test]
fn normalize_keeps_clean_text() {
    assert_eq!(normalize_description(""), "");
    assert_eq!(
        normalize_description("Forms colonies in perpetually dark places."),
        "Forms colonies in perpetually dark places."
    );
}
