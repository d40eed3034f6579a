use deprader::typosquat::dataset::load_popular_packages;
use deprader::typosquat::homoglyph::{fold_homoglyph, homoglyph_impersonation, normalize_homoglyphs};

#[test]
fn normalize_is_identity_for_plain_ascii() {
    assert_eq!(normalize_homoglyphs("react"), "react");
    assert_eq!(normalize_homoglyphs("@angular/core"), "@angular/core");
    assert_eq!(normalize_homoglyphs(""), "");
}

#[test]
fn normalize_maps_cyrillic_lookalikes_to_latin() {
    assert_eq!(normalize_homoglyphs("re\u{0430}ct"), "react");
    assert_eq!(normalize_homoglyphs("l\u{043E}d\u{0430}sh"), "lodash");
}

#[test]
fn normalize_maps_fullwidth_latin_to_ascii() {
    assert_eq!(
        normalize_homoglyphs("\u{FF45}\u{FF58}\u{FF50}\u{FF52}\u{FF45}\u{FF53}\u{FF53}"),
        "express"
    );
}

#[test]
fn normalize_maps_greek_lookalikes_to_latin() {
    assert_eq!(normalize_homoglyphs("c\u{03BF}mmander"), "commander");
}

#[test]
fn impersonation_flags_cyrillic_a_in_npm_package() {
    let dataset = load_popular_packages();
    assert_eq!(
        homoglyph_impersonation("re\u{0430}ct", &dataset).as_deref(),
        Some("react")
    );
}

#[test]
fn impersonation_flags_fullwidth_pypi_package() {
    let dataset = load_popular_packages();
    let fullwidth = "\u{FF52}\u{FF45}\u{FF51}\u{FF55}\u{FF45}\u{FF53}\u{FF54}\u{FF53}";
    assert_eq!(
        homoglyph_impersonation(fullwidth, &dataset).as_deref(),
        Some("requests")
    );
}

#[test]
fn impersonation_flags_greek_omicron_in_npm_package() {
    let dataset = load_popular_packages();
    assert_eq!(
        homoglyph_impersonation("l\u{03BF}dash", &dataset).as_deref(),
        Some("lodash")
    );
}

#[test]
fn impersonation_ignores_plain_ascii_popular_package() {
    let dataset = load_popular_packages();
    assert_eq!(homoglyph_impersonation("react", &dataset), None);
}

#[test]
fn impersonation_ignores_homoglyph_name_that_is_not_popular() {
    let dataset = load_popular_packages();
    assert_eq!(homoglyph_impersonation("re\u{0430}ctxyzzy", &dataset), None);
}

#[test]
fn fold_covers_each_script_and_the_fullwidth_edges() {
    assert_eq!(fold_homoglyph('\u{0441}'), 'c');
    assert_eq!(fold_homoglyph('\u{03C1}'), 'p');
    assert_eq!(fold_homoglyph('\u{057D}'), 's');
    assert_eq!(fold_homoglyph('\u{0261}'), 'g');
    assert_eq!(fold_homoglyph('\u{0131}'), 'i');
    assert_eq!(fold_homoglyph('\u{FF01}'), '!');
    assert_eq!(fold_homoglyph('\u{FF5E}'), '~');
    // Just outside the full-width range, and an unlisted letter.
    assert_eq!(fold_homoglyph('\u{FF00}'), '\u{FF00}');
    assert_eq!(fold_homoglyph('\u{FF5F}'), '\u{FF5F}');
    assert_eq!(fold_homoglyph('\u{0434}'), '\u{0434}');
    assert_eq!(fold_homoglyph('a'), 'a');
}

#[test]
fn normalize_is_idempotent_and_keeps_length() {
    let once = normalize_homoglyphs("\u{FF4C}\u{043E}d\u{03B1}sh\u{0434}");
    assert_eq!(once, "lodash\u{0434}");
    assert_eq!(normalize_homoglyphs(&once), once);
    assert_eq!(once.chars().count(), 7);
}

#[test]
fn impersonation_against_a_small_dataset() {
    let dataset = vec!["left-pad".to_string(), "react".to_string()];
    assert_eq!(homoglyph_impersonation("re\u{0430}ct", &dataset).as_deref(), Some("react"));
    assert_eq!(homoglyph_impersonation("\u{FF52}eact", &dataset).as_deref(), Some("react"));
    assert_eq!(homoglyph_impersonation("react", &dataset), None);
    assert_eq!(homoglyph_impersonation("re\u{0430}ct", &[]), None);
}
