use deprader::typosquat::scanner::{score_package, ScanResult, DISTANCE_THRESHOLD};

#[test]
fn exact_popular_package_is_not_flagged() {
    let result = score_package("react");
    assert_eq!(result.distance_match, None);
    assert_eq!(result.homoglyph_match, None);
    assert!(!result.is_likely_typosquat());
}

#[test]
fn unrelated_name_is_not_flagged() {
    let result = score_package("definitely-not-a-real-package-zzz123");
    assert_eq!(result.distance_match, None);
    assert_eq!(result.homoglyph_match, None);
    assert!(!result.is_likely_typosquat());
}

#[test]
fn distance_only_match_is_flagged_with_reason() {
    let result = score_package("expresss");
    assert_eq!(result.distance_match, Some(("express".to_string(), 1)));
    assert_eq!(result.homoglyph_match, None);
    assert!(result.is_likely_typosquat());
}

#[test]
fn homoglyph_only_match_is_flagged_with_reason() {
    let fullwidth = "\u{FF52}\u{FF45}\u{FF51}\u{FF55}\u{FF45}\u{FF53}\u{FF54}\u{FF53}";
    let result = score_package(fullwidth);
    assert_eq!(result.distance_match, None);
    assert_eq!(result.homoglyph_match.as_deref(), Some("requests"));
    assert!(result.is_likely_typosquat());
}

#[test]
fn both_signals_can_fire_on_the_same_candidate() {
    let result = score_package("re\u{0430}ct");
    assert_eq!(result.distance_match, Some(("react".to_string(), 1)));
    assert_eq!(result.homoglyph_match.as_deref(), Some("react"));
    assert!(result.is_likely_typosquat());
}

#[test]
fn display_reports_both_reasons_when_both_fire() {
    let result = score_package("re\u{0430}ct");
    let rendered = result.to_string();
    assert!(rendered.contains("likely typosquat"));
    assert!(rendered.contains("edit distance 1 from popular package \"react\""));
    assert!(rendered.contains("homoglyph impersonation of popular package \"react\""));
}

#[test]
fn display_reports_no_signal_for_clean_name() {
    let result = score_package("react");
    assert_eq!(result.to_string(), "react: no typosquat signal detected");
}

#[test]
fn candidate_is_kept_as_given() {
    let result = score_package("re\u{0430}ct");
    assert_eq!(result.candidate, "re\u{0430}ct");
}

#[test]
fn distance_two_is_within_threshold() {
    assert_eq!(DISTANCE_THRESHOLD, 2);
    let result = score_package("reqests");
    assert_eq!(result.distance_match, Some(("requests".to_string(), 1)));
    let result = score_package("lodahs");
    assert_eq!(result.distance_match, Some(("lodash".to_string(), 2)));
}

#[test]
fn display_lists_reasons_in_order_with_multi_digit_distance() {
    let result = ScanResult {
        candidate: "x".to_string(),
        distance_match: Some(("y".to_string(), 12)),
        homoglyph_match: Some("z".to_string()),
    };
    assert!(result.is_likely_typosquat());
    assert_eq!(
        result.to_string(),
        "x: likely typosquat\n  - edit distance 12 from popular package \"y\"\n  - homoglyph impersonation of popular package \"z\""
    );
    let only_homoglyph = ScanResult {
        candidate: "x".to_string(),
        distance_match: None,
        homoglyph_match: Some("z".to_string()),
    };
    assert_eq!(
        only_homoglyph.to_string(),
        "x: likely typosquat\n  - homoglyph impersonation of popular package \"z\""
    );
}
