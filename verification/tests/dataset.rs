use deprader::typosquat::dataset::{load_popular_packages, parse_string_array};

#[test]
fn loader_returns_non_empty_list_including_known_packages() {
    let packages = load_popular_packages();

    assert!(
        !packages.is_empty(),
        "combined popular-package list should not be empty"
    );
    assert!(
        packages.iter().any(|name| name == "react"),
        "expected npm package 'react' in the combined list"
    );
    assert!(
        packages.iter().any(|name| name == "requests"),
        "expected PyPI package 'requests' in the combined list"
    );
}

#[test]
fn loader_puts_npm_names_before_pypi_names() {
    let packages = load_popular_packages();
    let react = packages.iter().position(|name| name == "react").unwrap();
    let requests = packages.iter().position(|name| name == "requests").unwrap();
    assert!(react < requests);
    assert_eq!(packages[0], "react");
}

#[test]
fn parser_reads_plain_array_in_order() {
    assert_eq!(
        parse_string_array("[\"a\", \"bc\",\n  \"@scope/pkg\"]"),
        vec!["a".to_string(), "bc".to_string(), "@scope/pkg".to_string()]
    );
    assert_eq!(parse_string_array("[]"), Vec::<String>::new());
    assert_eq!(parse_string_array(""), Vec::<String>::new());
}

#[test]
fn parser_decodes_escapes() {
    assert_eq!(
        parse_string_array(r#"["a\"b", "c\\d", "e\/f", "g\nh\ti\rj"]"#),
        vec![
            "a\"b".to_string(),
            "c\\d".to_string(),
            "e/f".to_string(),
            "g\nh\ti\rj".to_string()
        ]
    );
}

#[test]
fn parser_drops_unterminated_string() {
    assert_eq!(parse_string_array("[\"ok\", \"unfinished"), vec!["ok".to_string()]);
    assert_eq!(parse_string_array("[\"ok\", \"trailing\\"), vec!["ok".to_string()]);
}

#[test]
fn parser_keeps_duplicates_and_empty_strings() {
    assert_eq!(
        parse_string_array("[\"x\",\"\",\"x\"]"),
        vec!["x".to_string(), String::new(), "x".to_string()]
    );
}

#[test]
fn parser_reads_spaced_array_with_escapes() {
    let raw = " [\n\t\"left\\/pad\" ,\r\n  \"\" , \"say \\\"hi\\\"\\n\"\n]\n";
    assert_eq!(
        parse_string_array(raw),
        vec!["left/pad".to_string(), String::new(), "say \"hi\"\n".to_string()]
    );
}
