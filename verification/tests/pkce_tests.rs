use snipsnap::pkce::{challenge_of_verifier, generate, CHARSET};

fn is_charset_char(c: char) -> bool {
    CHARSET.contains(&c)
}

#[test]
fn challenge_is_deterministic_and_43_chars() {
    let verifier: String = "A".repeat(124);
    let c1 = challenge_of_verifier(&verifier);
    let c2 = challenge_of_verifier(&verifier);
    assert_eq!(c1, c2);
    assert_eq!(c1.len(), 43);
}

#[test]
fn challenge_of_all_a_verifier_is_stable() {
    let verifier: String = "A".repeat(124);
    let c = challenge_of_verifier(&verifier);
    assert_eq!(c, "ou4iKNR5iYjOOsJzwM2Lm7xOPlhBPrIt--Y5V1hlmis");
}

#[test]
fn challenge_has_no_padding_and_is_url_safe() {
    let c = challenge_of_verifier("hello");
    assert!(!c.contains('='));
    assert!(!c.contains('+'));
    assert!(!c.contains('/'));
}

#[test]
fn challenge_differs_for_different_verifiers() {
    let c1 = challenge_of_verifier(&"A".repeat(124));
    let c2 = challenge_of_verifier(&"B".repeat(124));
    assert_ne!(c1, c2);
}

#[test]
fn generated_material_has_required_shape() {
    let m = generate();
    assert_eq!(m.state.len(), 10);
    assert_eq!(m.verifier.len(), 124);
    assert_eq!(m.challenge.len(), 43);
    assert!(m.state.chars().all(is_charset_char));
    assert!(m.verifier.chars().all(is_charset_char));
    assert_eq!(m.challenge, challenge_of_verifier(&m.verifier));
}

#[test]
fn generated_material_is_fresh_per_attempt() {
    let m1 = generate();
    let m2 = generate();
    assert_ne!(m1.verifier, m2.verifier);
}

#[test]
fn str_helpers_compare_by_characters() {
    assert!(snipsnap::strutil::str_eq("/snipsnap", "/snipsnap"));
    assert!(!snipsnap::strutil::str_eq("/snipsnap", "/snipsnap?"));
    assert!(!snipsnap::strutil::str_eq("abc", "abd"));
    assert!(snipsnap::strutil::str_starts_with("/snipsnap?state=x", "/snipsnap?"));
    assert!(!snipsnap::strutil::str_starts_with("/snipsnap", "/snipsnap?"));
    assert!(snipsnap::strutil::str_starts_with("anything", ""));
}

#[test]
fn format_track_joins_artists() {
    let artists = vec!["Alice".to_string(), "Bob".to_string(), "Carol".to_string()];
    assert_eq!(snipsnap::track::format_track("Song", &artists), "Song - Alice, Bob, Carol");
}

#[test]
fn format_track_single_and_no_artist() {
    assert_eq!(snipsnap::track::format_track("Song", &vec!["Alice".to_string()]), "Song - Alice");
    assert_eq!(snipsnap::track::format_track("Song", &Vec::new()), "Song - ");
}
