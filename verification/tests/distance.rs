use deprader::typosquat::dataset::load_popular_packages;
use deprader::typosquat::distance::{levenshtein_distance, nearest_match};

#[test]
fn distance_between_identical_strings_is_zero() {
    assert_eq!(levenshtein_distance("express", "express"), 0);
    assert_eq!(levenshtein_distance("", ""), 0);
}

#[test]
fn distance_handles_empty_operand() {
    assert_eq!(levenshtein_distance("", "react"), 5);
    assert_eq!(levenshtein_distance("react", ""), 5);
}

#[test]
fn one_character_off_typosquat_has_distance_one() {
    // dropped 's'
    assert_eq!(levenshtein_distance("expres", "express"), 1);
    // extra 's'
    assert_eq!(levenshtein_distance("expresss", "express"), 1);
    // single substitution
    assert_eq!(levenshtein_distance("requezts", "requests"), 1);
}

#[test]
fn distance_counts_transposition_as_two_edits() {
    assert_eq!(levenshtein_distance("recat", "react"), 2);
}

#[test]
fn nearest_match_identifies_misspelled_popular_package() {
    let dataset = load_popular_packages();

    let (name, distance) = nearest_match("expresss", &dataset);
    assert_eq!(name, "express");
    assert_eq!(distance, 1);

    let (name, distance) = nearest_match("requezts", &dataset);
    assert_eq!(name, "requests");
    assert_eq!(distance, 1);
}

#[test]
fn nearest_match_returns_exact_entry_with_distance_zero() {
    let dataset = load_popular_packages();
    let (name, distance) = nearest_match("react", &dataset);
    assert_eq!(name, "react");
    assert_eq!(distance, 0);
}

#[test]
fn nearest_match_on_empty_dataset_is_sentinel() {
    let (name, distance) = nearest_match("anything", &[]);
    assert_eq!(name, "");
    assert_eq!(distance, usize::MAX);
}

#[test]
fn distance_counts_multibyte_characters_once() {
    // One Cyrillic letter (two bytes in UTF-8) in place of a Latin one.
    assert_eq!(levenshtein_distance("re\u{0430}ct", "react"), 1);
    assert_eq!(levenshtein_distance("\u{FF45}", "e"), 1);
    assert_eq!(levenshtein_distance("\u{FF45}\u{FF58}", ""), 2);
}

#[test]
fn distance_is_symmetric_on_examples() {
    for (a, b) in [("kitten", "sitting"), ("flaw", "lawn"), ("", "abc"), ("lodash", "lodahs")] {
        assert_eq!(levenshtein_distance(a, b), levenshtein_distance(b, a));
    }
    assert_eq!(levenshtein_distance("kitten", "sitting"), 3);
    assert_eq!(levenshtein_distance("flaw", "lawn"), 2);
}

#[test]
fn distance_stays_between_length_gap_and_longer_length() {
    let d = levenshtein_distance("abc", "xyzuvw");
    assert_eq!(d, 6);
    let d = levenshtein_distance("ab", "abcd");
    assert_eq!(d, 2);
}

#[test]
fn nearest_match_prefers_earliest_entry_on_tie() {
    let dataset = vec!["cat".to_string(), "bat".to_string(), "hat".to_string()];
    let (name, distance) = nearest_match("rat", &dataset);
    assert_eq!(name, "cat");
    assert_eq!(distance, 1);
}

#[test]
fn nearest_match_keeps_strictly_better_later_entry() {
    let dataset = vec!["zzzzzz".to_string(), "reacts".to_string(), "react".to_string()];
    let (name, distance) = nearest_match("react", &dataset);
    assert_eq!(name, "react");
    assert_eq!(distance, 0);
    let (name, distance) = nearest_match("reac", &dataset);
    assert_eq!(name, "react");
    assert_eq!(distance, 1);
}

#[test]
fn nearest_match_exact_hit_stops_at_first_occurrence() {
    let dataset = vec!["a".to_string(), "react".to_string(), "react".to_string()];
    let (name, distance) = nearest_match("react", &dataset);
    assert_eq!(name, "react");
    assert_eq!(distance, 0);
}

#[test]
fn distance_obeys_triangle_inequality_on_examples() {
    let words = ["react", "reacts", "preact", "redux", "", "r\u{0435}act"];
    for a in words {
        for b in words {
            for c in words {
                assert!(
                    levenshtein_distance(a, c)
                        <= levenshtein_distance(a, b) + levenshtein_distance(b, c)
                );
            }
        }
    }
}
