use mdbook_rss::matter::{
    find_entry, resolve_date, resolve_table, starts_with_fence, DateResolution, FrontMatter,
    MatterEntry, MatterValue,
};

fn entry(key: &str, value: MatterValue) -> MatterEntry {
    MatterEntry { key: key.to_string(), value }
}

fn string(value: &str) -> MatterValue {
    MatterValue::Text(value.to_string())
}

fn table(entries: Vec<MatterEntry>) -> FrontMatter {
    FrontMatter::Table { entries, content: "rest".to_string() }
}

#[test]
fn find_entry_finds_a_key() {
    let entries = vec![entry("title", string("T")), entry("date", string("D"))];
    assert!(matches!(find_entry(&entries, "date"), Some(MatterValue::Text(date)) if date == "D"));
    assert!(matches!(find_entry(&entries, "title"), Some(MatterValue::Text(t)) if t == "T"));
    assert!(find_entry(&entries, "description").is_none());
    assert!(find_entry(&entries, "Date").is_none());
    assert!(find_entry(&vec![], "date").is_none());
}

#[test]
fn resolve_table_reads_date_and_description() {
    let entries = vec![entry("description", string("About")), entry("date", string("2023-05-01"))];
    match resolve_table(&entries) {
        DateResolution::FrontMatter { date, description } => {
            assert_eq!(date, "2023-05-01");
            assert_eq!(description, Some("About".to_string()));
        }
        other => panic!("{:?}", other),
    }
}

#[test]
fn resolve_table_needs_a_string_under_date() {
    assert!(matches!(resolve_table(&vec![]), DateResolution::Malformed));
    assert!(matches!(
        resolve_table(&vec![entry("date", MatterValue::Null)]),
        DateResolution::Malformed
    ));
    assert!(matches!(
        resolve_table(&vec![entry("date", MatterValue::Other)]),
        DateResolution::Malformed
    ));
    assert!(matches!(
        resolve_table(&vec![entry("description", string("About"))]),
        DateResolution::Malformed
    ));
}

#[test]
fn resolve_table_takes_a_description_that_is_a_string_or_nothing() {
    let dated = |description: MatterValue| {
        resolve_table(&vec![entry("date", string("d")), entry("description", description)])
    };
    assert!(matches!(dated(MatterValue::Null), DateResolution::FrontMatter { description: None, .. }));
    assert!(matches!(dated(MatterValue::Other), DateResolution::Malformed));
    assert!(matches!(
        dated(string("")),
        DateResolution::FrontMatter { description: Some(text), .. } if text.is_empty()
    ));
    assert!(matches!(
        resolve_table(&vec![entry("date", string("d"))]),
        DateResolution::FrontMatter { date, description: None } if date == "d"
    ));
}

fn no_data() -> FrontMatter {
    FrontMatter::NoData { content: "rest".to_string() }
}

#[test]
fn resolve_date_prefers_the_front_matter() {
    let matter = table(vec![entry("date", string("from the block"))]);
    assert!(matches!(
        resolve_date(&matter, true, Some("2022-01-10".to_string())),
        DateResolution::FrontMatter { date, .. } if date == "from the block"
    ));
}

#[test]
fn resolve_date_does_not_fall_back_from_a_bad_block() {
    let name_match = Some("2022-01-10".to_string());
    assert!(matches!(
        resolve_date(&table(vec![]), true, name_match.clone()),
        DateResolution::Malformed
    ));
    assert!(matches!(
        resolve_date(&FrontMatter::Scalar { content: "rest".to_string() }, true, name_match.clone()),
        DateResolution::Malformed
    ));
    assert!(matches!(
        resolve_date(&FrontMatter::Malformed, true, name_match.clone()),
        DateResolution::Malformed
    ));
    assert!(matches!(
        resolve_date(&FrontMatter::Malformed, false, name_match),
        DateResolution::Malformed
    ));
}

#[test]
fn resolve_date_does_not_fall_back_from_a_fence_without_data() {
    assert!(matches!(
        resolve_date(&no_data(), true, Some("2022-01-10".to_string())),
        DateResolution::Malformed
    ));
    assert!(matches!(resolve_date(&no_data(), true, None), DateResolution::Malformed));
}

#[test]
fn resolve_date_falls_back_to_the_file_name() {
    assert!(matches!(
        resolve_date(&no_data(), false, Some("2022-01-10".to_string())),
        DateResolution::FileName { date } if date == "2022-01-10"
    ));
    assert!(matches!(resolve_date(&no_data(), false, None), DateResolution::NoMatch));
}

#[test]
fn starts_with_fence_reads_the_first_line() {
    assert!(starts_with_fence("---\ndate: d\n---\nHello"));
    assert!(starts_with_fence("---\n"));
    assert!(starts_with_fence("---\n---\nHello"));
    assert!(starts_with_fence("--- \t\r\nHello"));
    assert!(starts_with_fence("---\r\nHello"));
}

#[test]
fn starts_with_fence_needs_three_dashes_and_a_line_after() {
    assert!(!starts_with_fence(""));
    assert!(!starts_with_fence("---"));
    assert!(!starts_with_fence("--- "));
    assert!(!starts_with_fence("--\nHello"));
    assert!(!starts_with_fence("----\nHello"));
    assert!(!starts_with_fence("--- a\nHello"));
    assert!(!starts_with_fence(" ---\nHello"));
    assert!(!starts_with_fence("\n---\nHello"));
    assert!(!starts_with_fence("Hello\n---\n"));
    assert!(!starts_with_fence("\n"));
}
