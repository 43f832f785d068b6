use mdbook_rss::config::{ConfigError, ConfigField, FieldFault, RssConfig, DEFAULT_DATE_PATTERN};
use mdbook_rss::settings::{BookSettings, Section, Setting, SettingValue};

fn text(key: &str, value: &str) -> Setting {
    Setting { key: key.to_string(), value: SettingValue::Text(value.to_string()) }
}

fn other(key: &str) -> Setting {
    Setting { key: key.to_string(), value: SettingValue::Other }
}

fn book(settings: Vec<Setting>) -> BookSettings {
    BookSettings {
        title: Some("The Book".to_string()),
        description: Some("About things".to_string()),
        authors: vec!["Ann".to_string(), "Bob".to_string()],
        preprocessors: vec![
            Section { name: "links".to_string(), settings: vec![text("files-glob", "[")] },
            Section { name: "rss".to_string(), settings },
        ],
    }
}

fn invalid(field: ConfigField, fault: FieldFault) -> ConfigError {
    ConfigError::InvalidConfigField { field, fault }
}

fn error_of(settings: Vec<Setting>) -> ConfigError {
    RssConfig::from_book_config(&book(settings), "rss").unwrap_err()
}

#[test]
fn config_takes_every_field_from_the_settings() {
    let config = RssConfig::from_book_config(
        &book(vec![
            text("url-base", "https://example.com/book/"),
            text("date-pattern", "[0-9]{8}"),
            text("files-glob", "posts/*.md"),
        ]),
        "rss",
    )
    .unwrap();
    assert_eq!(config.title(), "The Book");
    assert_eq!(config.description(), "About things");
    assert_eq!(config.author(), "Ann, Bob");
    assert_eq!(config.files_glob(), "posts/*.md");
    assert_eq!(config.date_pattern(), "[0-9]{8}");
    assert_eq!(config.url_base(), "https://example.com/book/");
}

#[test]
fn config_defaults_the_date_pattern() {
    let config = RssConfig::from_book_config(
        &book(vec![text("files-glob", "*.md"), text("url-base", "https://example.com/")]),
        "rss",
    )
    .unwrap();
    assert_eq!(config.date_pattern(), DEFAULT_DATE_PATTERN);
    assert_eq!(config.date_pattern(), "\\d{4}-\\d{2}-\\d{2}");
}

#[test]
fn config_without_authors_has_an_empty_author() {
    let mut settings =
        book(vec![text("files-glob", "*.md"), text("url-base", "https://example.com/")]);
    settings.authors = vec![];
    let config = RssConfig::from_book_config(&settings, "rss").unwrap();
    assert_eq!(config.author(), "");
}

#[test]
fn config_needs_a_title() {
    let mut settings =
        book(vec![text("files-glob", "*.md"), text("url-base", "https://example.com/")]);
    settings.title = None;
    settings.description = None;
    assert_eq!(
        RssConfig::from_book_config(&settings, "rss").unwrap_err(),
        ConfigError::MissingBookMetadata(ConfigField::Title)
    );
}

#[test]
fn config_needs_a_description() {
    let mut settings = book(vec![]);
    settings.description = None;
    assert_eq!(
        RssConfig::from_book_config(&settings, "rss").unwrap_err(),
        ConfigError::MissingBookMetadata(ConfigField::Description)
    );
}

#[test]
fn config_needs_the_section_of_the_preprocessor() {
    let settings =
        book(vec![text("files-glob", "*.md"), text("url-base", "https://example.com/")]);
    assert_eq!(
        RssConfig::from_book_config(&settings, "feed").unwrap_err(),
        ConfigError::MissingPreprocessorConfig
    );
}

#[test]
fn config_reads_the_first_section_of_the_name() {
    let mut settings =
        book(vec![text("files-glob", "*.md"), text("url-base", "https://example.com/")]);
    settings.preprocessors.push(Section { name: "rss".to_string(), settings: vec![] });
    let config = RssConfig::from_book_config(&settings, "rss").unwrap();
    assert_eq!(config.files_glob(), "*.md");
}

#[test]
fn config_needs_a_files_glob() {
    assert_eq!(
        error_of(vec![text("url-base", "https://example.com/")]),
        invalid(ConfigField::FilesGlob, FieldFault::Missing)
    );
}

#[test]
fn config_needs_a_files_glob_that_is_a_string() {
    assert_eq!(
        error_of(vec![other("files-glob"), text("url-base", "https://example.com/")]),
        invalid(ConfigField::FilesGlob, FieldFault::NotText)
    );
}

#[test]
fn config_refuses_a_glob_that_does_not_build() {
    assert_eq!(
        error_of(vec![text("files-glob", "posts/{a,b"), text("url-base", "https://example.com/")]),
        invalid(ConfigField::FilesGlob, FieldFault::Malformed)
    );
}

#[test]
fn config_refuses_a_glob_that_is_nested_too_deeply() {
    let depth = 300;
    let nested = format!("{}b{}", "{a,".repeat(depth), "}".repeat(depth));
    assert_eq!(
        error_of(vec![text("files-glob", &nested), text("url-base", "https://example.com/")]),
        invalid(ConfigField::FilesGlob, FieldFault::Malformed)
    );
}

#[test]
fn config_takes_a_glob_with_a_few_nested_groups() {
    let depth = 5;
    let nested = format!("{}b{}", "{a,".repeat(depth), "}".repeat(depth));
    let config = RssConfig::from_book_config(
        &book(vec![text("files-glob", &nested), text("url-base", "https://example.com/")]),
        "rss",
    )
    .unwrap();
    assert_eq!(config.files_glob(), &nested);
}

#[test]
fn config_refuses_a_date_pattern_that_is_no_string() {
    assert_eq!(
        error_of(vec![
            text("files-glob", "*.md"),
            other("date-pattern"),
            text("url-base", "https://example.com/"),
        ]),
        invalid(ConfigField::DatePattern, FieldFault::NotText)
    );
}

#[test]
fn config_refuses_a_date_pattern_that_does_not_build() {
    assert_eq!(
        error_of(vec![
            text("files-glob", "*.md"),
            text("date-pattern", "(\\d{4}"),
            text("url-base", "https://example.com/"),
        ]),
        invalid(ConfigField::DatePattern, FieldFault::Malformed)
    );
}

#[test]
fn config_without_url_base_is_an_error() {
    assert_eq!(
        error_of(vec![text("files-glob", "*.md")]),
        invalid(ConfigField::UrlBase, FieldFault::Missing)
    );
}

#[test]
fn config_needs_a_url_base_that_is_a_string() {
    assert_eq!(
        error_of(vec![text("files-glob", "*.md"), other("url-base")]),
        invalid(ConfigField::UrlBase, FieldFault::NotText)
    );
}

#[test]
fn config_refuses_a_relative_url_base() {
    assert_eq!(
        error_of(vec![text("files-glob", "*.md"), text("url-base", "book/")]),
        invalid(ConfigField::UrlBase, FieldFault::Malformed)
    );
}

#[test]
fn config_reports_the_first_fault() {
    assert_eq!(
        error_of(vec![other("files-glob"), text("date-pattern", "("), text("url-base", "x")]),
        invalid(ConfigField::FilesGlob, FieldFault::NotText)
    );
    assert_eq!(
        error_of(vec![text("files-glob", "*.md"), text("date-pattern", "("), text("url-base", "x")]),
        invalid(ConfigField::DatePattern, FieldFault::Malformed)
    );
}

#[test]
fn section_get_finds_the_first_setting_of_a_key() {
    let section = Section {
        name: "rss".to_string(),
        settings: vec![text("a", "1"), other("b"), text("a", "2")],
    };
    assert!(matches!(section.get("a"), Some(SettingValue::Text(value)) if value == "1"));
    assert!(matches!(section.get("b"), Some(SettingValue::Other)));
    assert!(section.get("c").is_none());
    assert!(section.get("").is_none());
}

#[test]
fn book_settings_find_a_section_by_its_name() {
    let settings = book(vec![text("files-glob", "*.md")]);
    assert_eq!(settings.get_preprocessor("rss").unwrap().settings.len(), 1);
    assert_eq!(settings.get_preprocessor("links").unwrap().name, "links");
    assert!(settings.get_preprocessor("rs").is_none());
}
