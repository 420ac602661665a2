use siz::types::{get_printable_types, SizTypesBuilder};
use siz::types_default::default_type_table;

#[test]
fn test_filter_types_single() {
    let mut stb = SizTypesBuilder::new();

    let matcher = stb.filter_types(&vec![String::from("rust")]).unwrap();

    // requested types are whitelisted
    assert!(matcher.matched("foo.rs", false).is_whitelist());
    assert!(matcher.matched("foo.py", false).is_ignore());
    // and non-requested types are ignored
    assert!(matcher.matched("foo", false).is_ignore());
}

#[test]
fn test_filter_types_multiple() {
    let mut stb = SizTypesBuilder::new();

    let matcher = stb
        .filter_types(&vec![String::from("rust"), String::from("py")])
        .unwrap();

    // requested types are whitelisted
    assert!(matcher.matched("foo.rs", false).is_whitelist());
    assert!(matcher.matched("foo.py", false).is_whitelist());
    // and non-requested types are ignored
    assert!(matcher.matched("foo", false).is_ignore());
}

#[test]
fn test_filter_types_missing_type() {
    let mut stb = SizTypesBuilder::new();

    // unsupported types raise an error
    assert!(stb.filter_types(&vec![String::from("bogus")]).is_err());
    // including when chained with types that are supported
    assert!(stb
        .filter_types(&vec![String::from("rust"), String::from("bogus")])
        .is_err());
}

#[test]
fn test_get_approximate_match_types_exact_match() {
    let mut stb = SizTypesBuilder::new();

    let result = stb.get_approximate_match_types(&String::from("jinja2"));

    // Assert that the result contains the expected approximate matches
    assert_eq!(result.len(), 2);
    assert_eq!(result[0], vec!["jinja".to_string()]);
    assert_eq!(result[1], vec!["jinja".to_string()]);
}

#[test]
fn test_get_approximate_match_types_approximate_match() {
    let mut stb = SizTypesBuilder::new();

    let result = stb.get_approximate_match_types(&String::from("xmls"));

    // Assert that the result contains the expected approximate matches
    assert_eq!(result.len(), 2);
    assert_eq!(result[0], Vec::<String>::new());
    assert_eq!(result[1], vec!["xml".to_string(), "xls".to_string()]);
}

#[test]
fn test_get_printable_types() {
    let _ = get_printable_types(false);
    let _ = get_printable_types(true);
}

#[test]
fn test_get_printable_types_line_format() {
    let listing = get_printable_types(false);
    let lines: Vec<&str> = listing.split('\n').collect();
    // one line per alias; the bat entry has two aliases over the same globs
    assert!(lines.contains(&"rust: *.rs"));
    assert!(lines.contains(&"bat: *.bat"));
    assert!(lines.contains(&"batch: *.bat"));
    // no trailing line terminator
    assert!(!listing.ends_with('\n'));
}

#[test]
fn default_types_are_sorted() {
    let table = default_type_table();
    let mut names = table.iter().map(|e| e.aliases[0].as_str());
    let Some(mut previous_name) = names.next() else {
        return;
    };
    for name in names {
        assert!(
            name > previous_name,
            r#""{}" should be sorted before "{}" in the built-in table"#,
            name,
            previous_name
        );
        previous_name = name;
    }
}

#[test]
fn test_filter_types_missing_type_message_with_exact_match() {
    let mut stb = SizTypesBuilder::new();
    let err = stb.filter_types(&vec![String::from("jinja2")]).unwrap_err();
    assert_eq!(
        err.message().as_str(),
        "unrecognized file type: jinja2\n\nDid you mean: jinja? The 'jinja2' string matched \
         in the path glob pattern list.\n\nSee --list-types for a list of supported type names \
         and associated path glob patterns."
    );
}

#[test]
fn test_filter_types_missing_type_message_with_approximate_matches() {
    let mut stb = SizTypesBuilder::new();
    let err = stb.filter_types(&vec![String::from("xmls")]).unwrap_err();
    assert_eq!(
        err.message().as_str(),
        "unrecognized file type: xmls\n\nTypes with approximate type name or path glob \
         pattern string matches: xml, xls\n\nSee --list-types for a list of supported type \
         names and associated path glob patterns."
    );
}

#[test]
fn test_filter_types_missing_type_message_without_suggestions() {
    let mut stb = SizTypesBuilder::new();
    let err = stb
        .filter_types(&vec![String::from("qqqqqqqqqqqq")])
        .unwrap_err();
    assert_eq!(
        err.message().as_str(),
        "unrecognized file type: qqqqqqqqqqqq\n\nSee --list-types for a list of supported \
         type names and associated path glob patterns."
    );
}

#[test]
fn test_filter_types_reports_first_missing_name() {
    let mut stb = SizTypesBuilder::new();
    let err = stb
        .filter_types(&vec![String::from("rust"), String::from("xmls"), String::from("bogus")])
        .unwrap_err();
    assert!(err.message().starts_with("unrecognized file type: xmls"));
}
