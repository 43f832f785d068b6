use mdbook_rss::book::{BookItem, Chapter, SourcePath};
use mdbook_rss::config::{ConfigError, ConfigField, FieldFault, RssConfig};
use mdbook_rss::feed::SkipReason;
use mdbook_rss::pipeline::{collect, Skipped};
use mdbook_rss::settings::{BookSettings, Section, Setting, SettingValue};
use mdbook_rss::{RssProcessor, RunError, RSS_FILE_NAME};

fn entry(key: &str, value: &str) -> Setting {
    Setting { key: key.to_string(), value: SettingValue::Text(value.to_string()) }
}

fn settings(entries: Vec<Setting>) -> BookSettings {
    BookSettings {
        title: Some("The Book".to_string()),
        description: Some("About things".to_string()),
        authors: vec!["Ann".to_string()],
        preprocessors: vec![Section { name: "rss".to_string(), settings: entries }],
    }
}

fn usual_settings() -> BookSettings {
    settings(vec![entry("files-glob", "*.md"), entry("url-base", "https://example.com/book/")])
}

fn page(name: &str, path: Option<&str>, content: &str) -> BookItem {
    BookItem::Chapter(Chapter {
        name: name.to_string(),
        content: content.to_string(),
        path: path.map(|path| SourcePath::Text(path.to_string())),
    })
}

fn body(item: &BookItem) -> &str {
    match item {
        BookItem::Chapter(chapter) => &chapter.content,
        _ => panic!("no chapter"),
    }
}

fn library() -> Vec<BookItem> {
    vec![
        page("First", Some("first.md"), "---\ndate: 2023-05-01\n---\nOne"),
        BookItem::Separator,
        page("Draft", None, "---\ndate: 2023-05-02\n---\nTwo"),
        page("Undated", Some("undated.md"), "Three"),
        page("Second", Some("2022-01-10-second.md"), "Four"),
        BookItem::PartTitle("Part".to_string()),
        page("Elsewhere", Some("notes/2022-01-11.md"), "Five"),
        page("Third", Some("third.md"), "---\ndate: 2021-01-01\n---\nSix"),
    ]
}

#[test]
fn name_is_rss() {
    assert_eq!(RssProcessor::new().name(), "rss");
}

#[test]
fn supports_renderer_only_html() {
    let processor = RssProcessor::new();
    assert!(processor.supports_renderer("html"));
    assert!(!processor.supports_renderer("markdown"));
    assert!(!processor.supports_renderer("epub"));
    assert!(!processor.supports_renderer("HTML"));
    assert!(!processor.supports_renderer(""));
}

#[test]
fn feed_file_is_rss_xml() {
    assert_eq!(RSS_FILE_NAME, "rss.xml");
}

#[test]
fn collect_keeps_the_order_of_the_walk() {
    let config = RssConfig::from_book_config(&usual_settings(), "rss").unwrap();
    let mut book = library();
    let collected = collect(&mut book, &config);
    let titles: Vec<&str> = collected.items.iter().map(|item| item.title.as_str()).collect();
    assert_eq!(titles, vec!["First", "Second", "Third"]);
    assert_eq!(collected.items.len() + collected.skipped.len(), 8);
    let dates: Vec<&str> = collected.items.iter().map(|item| item.pub_date.as_str()).collect();
    assert_eq!(dates, vec!["2023-05-01", "2022-01-10", "2021-01-01"]);
    assert_eq!(
        collected.skipped,
        vec![
            Skipped { index: 1, reason: SkipReason::NotAChapter },
            Skipped { index: 2, reason: SkipReason::Draft },
            Skipped { index: 3, reason: SkipReason::NoDate },
            Skipped { index: 5, reason: SkipReason::NotAChapter },
            Skipped { index: 6, reason: SkipReason::GlobMismatch },
        ]
    );
}

#[test]
fn collect_takes_front_matter_off_the_chapters_of_the_feed() {
    let config = RssConfig::from_book_config(&usual_settings(), "rss").unwrap();
    let mut book = library();
    collect(&mut book, &config);
    assert_eq!(book.len(), 8);
    assert_eq!(body(&book[0]), "One");
    assert!(matches!(book[1], BookItem::Separator));
    assert_eq!(body(&book[2]), "---\ndate: 2023-05-02\n---\nTwo");
    assert_eq!(body(&book[3]), "Three");
    assert_eq!(body(&book[4]), "Four");
    assert!(matches!(&book[5], BookItem::PartTitle(title) if title == "Part"));
    assert_eq!(body(&book[6]), "Five");
    assert_eq!(body(&book[7]), "Six");
}

#[test]
fn collect_without_a_rejected_chapter_gives_the_same_feed() {
    let config = RssConfig::from_book_config(&usual_settings(), "rss").unwrap();
    let mut whole = library();
    let mut without = library();
    without.remove(3);
    without.remove(1);
    let from_whole = collect(&mut whole, &config);
    let from_rest = collect(&mut without, &config);
    let titles = |items: &Vec<mdbook_rss::feed::FeedItem>| -> Vec<String> {
        items.iter().map(|item| item.title.clone()).collect()
    };
    assert_eq!(titles(&from_whole.items), titles(&from_rest.items));
}

#[test]
fn collect_of_an_empty_book_is_empty() {
    let config = RssConfig::from_book_config(&usual_settings(), "rss").unwrap();
    let mut book: Vec<BookItem> = vec![];
    let collected = collect(&mut book, &config);
    assert!(collected.items.is_empty());
    assert!(collected.skipped.is_empty());
}

#[test]
fn run_builds_the_feed_and_its_xml() {
    let mut book = library();
    let report = RssProcessor::new().run(&usual_settings(), &mut book).unwrap();
    assert_eq!(report.feed.title, "The Book");
    assert_eq!(report.feed.description, "About things");
    assert_eq!(report.feed.generator, "mdbook-rss 0.1.0");
    assert_eq!(report.feed.items.len(), 3);
    assert_eq!(report.feed.items[0].link, "https://example.com/book/first.html");
    assert_eq!(report.feed.items[0].content, "<p>One</p>");
    assert_eq!(report.feed.items[0].author, "Ann");
    assert_eq!(report.skipped.len(), 5);
    assert_eq!(body(&book[0]), "One");
    assert!(report.xml.contains("<rss"));
    assert!(report.xml.contains("<title>The Book</title>"));
    assert!(report.xml.contains("<generator>mdbook-rss 0.1.0</generator>"));
    assert!(report.xml.contains("<link>https://example.com/book/first.html</link>"));
    assert!(report.xml.contains("<pubDate>2022-01-10</pubDate>"));
    let first = report.xml.find("<title>First</title>").unwrap();
    let second = report.xml.find("<title>Second</title>").unwrap();
    let third = report.xml.find("<title>Third</title>").unwrap();
    assert!(first < second && second < third);
}

#[test]
fn draft_does_not_end_the_build() {
    let mut book = vec![page("Draft", None, "---\ndate: 2023-05-02\n---\nTwo")];
    let report = RssProcessor::new().run(&usual_settings(), &mut book).unwrap();
    assert!(report.feed.items.is_empty());
    assert_eq!(report.skipped, vec![Skipped { index: 0, reason: SkipReason::Draft }]);
    assert_eq!(body(&book[0]), "---\ndate: 2023-05-02\n---\nTwo");
    assert!(report.xml.contains("<channel>"));
    assert!(!report.xml.contains("<item>"));
}

#[test]
fn missing_url_base_ends_the_build() {
    let mut book = library();
    let report = RssProcessor::new().run(&settings(vec![entry("files-glob", "*.md")]), &mut book);
    assert_eq!(
        report.unwrap_err(),
        RunError::Config(ConfigError::InvalidConfigField {
            field: ConfigField::UrlBase,
            fault: FieldFault::Missing,
        })
    );
    assert_eq!(body(&book[0]), "---\ndate: 2023-05-01\n---\nOne");
}

#[test]
fn run_reads_the_section_named_rss() {
    let mut other = usual_settings();
    other.preprocessors[0].name = "feed".to_string();
    let mut book = library();
    assert_eq!(
        RssProcessor::new().run(&other, &mut book).unwrap_err(),
        RunError::Config(ConfigError::MissingPreprocessorConfig)
    );
}
