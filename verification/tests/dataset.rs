use country_bot::dataset::{load, load_from_parse, Dataset, LoadError, ParsedSource, RawEntry};

fn entries_of(d: &Dataset) -> Vec<(String, String)> {
    let mut out = Vec::new();
    let mut i = 0;
    while i < d.len() {
        out.push(d.entry_at(i));
        i += 1;
    }
    out
}

#[test]
fn load_flat_object() {
    let d = load("{\"KE\": \"Kenya\", \"FR\": \"France\"}").unwrap();
    assert_eq!(d.len(), 2);
    let mut rows = entries_of(&d);
    rows.sort();
    assert_eq!(rows[0], ("FR".to_string(), "France".to_string()));
    assert_eq!(rows[1], ("KE".to_string(), "Kenya".to_string()));
}

#[test]
fn load_non_object_yields_fallback_entry() {
    let d = load("[1, 2, 3]").unwrap();
    assert_eq!(entries_of(&d), vec![("KE".to_string(), "Kenya".to_string())]);
    let d = load("\"just a string\"").unwrap();
    assert_eq!(entries_of(&d), vec![("KE".to_string(), "Kenya".to_string())]);
    let d = load("42").unwrap();
    assert_eq!(entries_of(&d), vec![("KE".to_string(), "Kenya".to_string())]);
}

#[test]
fn load_invalid_json_is_a_format_error() {
    let r = load("not json at all {{{");
    assert!(matches!(r, Err(LoadError::DataFormat)));
}

#[test]
fn load_empty_object_is_an_emptiness_error() {
    let r = load("{}");
    assert!(matches!(r, Err(LoadError::EmptyDataset)));
}

#[test]
fn load_coerces_non_string_values_to_empty() {
    let d = load("{\"KE\": \"Kenya\", \"XX\": 7, \"YY\": null}").unwrap();
    let mut rows = entries_of(&d);
    rows.sort();
    assert_eq!(
        rows,
        vec![
            ("KE".to_string(), "Kenya".to_string()),
            ("XX".to_string(), "".to_string()),
            ("YY".to_string(), "".to_string()),
        ]
    );
}

#[test]
fn load_from_parse_keeps_row_order() {
    let rows = vec![
        RawEntry { code: "KE".to_string(), name: Some("Kenya".to_string()) },
        RawEntry { code: "FR".to_string(), name: Some("France".to_string()) },
    ];
    let d = load_from_parse(ParsedSource::Object(rows)).unwrap();
    assert_eq!(d.entry_at(0), ("KE".to_string(), "Kenya".to_string()));
    assert_eq!(d.entry_at(1), ("FR".to_string(), "France".to_string()));
}

#[test]
fn load_from_parse_invalid_is_a_format_error() {
    assert!(matches!(
        load_from_parse(ParsedSource::Invalid),
        Err(LoadError::DataFormat)
    ));
}

#[test]
fn pick_returns_a_present_key() {
    let d = load("{\"KE\": \"Kenya\", \"FR\": \"France\", \"DE\": \"Germany\"}").unwrap();
    let rows = entries_of(&d);
    for _ in 0..200 {
        let picked = d.pick();
        assert!(rows.iter().any(|r| *r == picked));
    }
}

#[test]
fn pick_covers_all_entries_evenly() {
    let d = load("{\"KE\": \"Kenya\", \"FR\": \"France\"}").unwrap();
    let mut counts = [0usize; 2];
    let n = 1000;
    for _ in 0..n {
        let (code, _) = d.pick();
        if code == "KE" {
            counts[0] += 1;
        } else {
            assert_eq!(code, "FR");
            counts[1] += 1;
        }
    }
    // A uniform draw of 1000 over two entries strays this far only with
    // negligible probability.
    assert!(counts[0] >= 300, "KE drawn only {} times of {}", counts[0], n);
    assert!(counts[1] >= 300, "FR drawn only {} times of {}", counts[1], n);
}
