//! The feed's configuration, read from the book's settings and checked once
//! per build.

use vstd::prelude::*;
use crate::outside::{build_glob, build_regex, glob_builds, parse_url, regex_builds, url_parses};
use crate::settings::{lookup_text, section_index, BookSettings, Lookup, Section, SettingValue};
use crate::text::{join_names, joined};

verus! {

/// The key under which the preprocessor's section holds the glob that selects
/// the chapters of the feed.
pub const CONFIG_FIELD_FILES_GLOB: &'static str = "files-glob";

/// The key under which the preprocessor's section holds the pattern that finds
/// a chapter's date in its file name.
pub const CONFIG_FIELD_DATE_PATTERN: &'static str = "date-pattern";

/// The key under which the preprocessor's section holds the URL that chapter
/// links are resolved against. It should end with `/`: a relative link replaces
/// whatever follows the last `/` of the base.
pub const CONFIG_FIELD_URL_BASE: &'static str = "url-base";

/// The date pattern of a book that configures none: four digits, a dash, two
/// digits, a dash, two digits.
pub const DEFAULT_DATE_PATTERN: &'static str = "\\d{4}-\\d{2}-\\d{2}";

/// In the files glob, `*` and `?` stay within one segment of a path.
pub const GLOB_LITERAL_SEPARATOR: bool = true;

/// In the files glob, `\` takes the special meaning off the character behind
/// it, whatever the platform.
pub const GLOB_BACKSLASH_ESCAPE: bool = true;

/// What separates the authors' names in a feed item.
pub const AUTHOR_SEPARATOR: &'static str = ", ";

/// A field of the configuration.
#[derive(Debug, Clone, Copy, PartialEq, Eq, Structural)]
pub enum ConfigField {
    Title,
    Description,
    FilesGlob,
    DatePattern,
    UrlBase,
}

/// What is wrong with a field of the preprocessor's section.
#[derive(Debug, Clone, Copy, PartialEq, Eq, Structural)]
pub enum FieldFault {
    /// The section has no such key.
    Missing,
    /// The key holds something that is not a string.
    NotText,
    /// The string is no valid glob, pattern or absolute URL.
    Malformed,
}

/// Why a book's settings give no configuration.
#[derive(Debug, Clone, Copy, PartialEq, Eq, Structural)]
pub enum ConfigError {
    /// The book has no title, or no description.
    MissingBookMetadata(ConfigField),
    /// The book has no section for the preprocessor.
    MissingPreprocessorConfig,
    /// A field of the preprocessor's section is missing or unusable.
    InvalidConfigField { field: ConfigField, fault: FieldFault },
}

/// The configuration of one build. The glob, the date pattern and the base
/// URL are kept as the text that was checked when the settings were read.
#[derive(Debug, Clone)]
pub struct RssConfig {
    author: String,
    files_glob: String,
    date_pattern: String,
    title: String,
    description: String,
    url_base: String,
}

/// What a configuration holds.
pub struct RssConfigView {
    pub author: Seq<char>,
    pub files_glob: Seq<char>,
    pub date_pattern: Seq<char>,
    pub title: Seq<char>,
    pub description: Seq<char>,
    pub url_base: Seq<char>,
}

impl View for RssConfig {
    type V = RssConfigView;

    closed spec fn view(&self) -> RssConfigView {
        RssConfigView {
            author: self.author@,
            files_glob: self.files_glob@,
            date_pattern: self.date_pattern@,
            title: self.title@,
            description: self.description@,
            url_base: self.url_base@,
        }
    }
}

impl RssConfigView {
    /// A matcher can be built for the glob, and the date pattern and the
    /// base URL are accepted by the crates that will apply them.
    pub open spec fn is_valid(self) -> bool {
        &&& files_glob_builds(self.files_glob)
        &&& regex_builds(self.date_pattern)
        &&& url_parses(self.url_base)
    }
}

/// Whether a matcher can be built for the files glob.
pub open spec fn files_glob_builds(files_glob: Seq<char>) -> bool {
    glob_builds(files_glob, GLOB_LITERAL_SEPARATOR, GLOB_BACKSLASH_ESCAPE)
}

/// The views of the authors' names.
pub open spec fn author_names(settings: &BookSettings) -> Seq<Seq<char>> {
    settings.authors.deep_view()
}

/// What a required string field of the section resolves to.
pub open spec fn required_field(
    section: &Section,
    key: Seq<char>,
    field: ConfigField,
    accepted: bool,
) -> Result<Seq<char>, ConfigError> {
    match lookup_text(section.settings@, key) {
        Lookup::Missing => Err(
            ConfigError::InvalidConfigField { field, fault: FieldFault::Missing },
        ),
        Lookup::NotText => Err(
            ConfigError::InvalidConfigField { field, fault: FieldFault::NotText },
        ),
        Lookup::Text(text) => if accepted {
            Ok(text)
        } else {
            Err(ConfigError::InvalidConfigField { field, fault: FieldFault::Malformed })
        },
    }
}

/// The glob of the section, or why it has none.
pub open spec fn files_glob_of(section: &Section) -> Result<Seq<char>, ConfigError> {
    let key = CONFIG_FIELD_FILES_GLOB@;
    let accepted = match lookup_text(section.settings@, key) {
        Lookup::Text(text) => files_glob_builds(text),
        _ => false,
    };
    required_field(section, key, ConfigField::FilesGlob, accepted)
}

/// The date pattern of the section, the default where it configures none, or
/// why the pattern cannot be used.
pub open spec fn date_pattern_of(section: &Section) -> Result<Seq<char>, ConfigError> {
    let malformed = ConfigError::InvalidConfigField {
        field: ConfigField::DatePattern,
        fault: FieldFault::Malformed,
    };
    match lookup_text(section.settings@, CONFIG_FIELD_DATE_PATTERN@) {
        Lookup::Missing => if regex_builds(DEFAULT_DATE_PATTERN@) {
            Ok(DEFAULT_DATE_PATTERN@)
        } else {
            Err(malformed)
        },
        Lookup::NotText => Err(
            ConfigError::InvalidConfigField {
                field: ConfigField::DatePattern,
                fault: FieldFault::NotText,
            },
        ),
        Lookup::Text(text) => if regex_builds(text) {
            Ok(text)
        } else {
            Err(malformed)
        },
    }
}

/// The base URL of the section, or why it has none.
pub open spec fn url_base_of(section: &Section) -> Result<Seq<char>, ConfigError> {
    let key = CONFIG_FIELD_URL_BASE@;
    let accepted = match lookup_text(section.settings@, key) {
        Lookup::Text(text) => url_parses(text),
        _ => false,
    };
    required_field(section, key, ConfigField::UrlBase, accepted)
}

/// The first section named `preprocessor_name`.
pub open spec fn section_of(settings: &BookSettings, preprocessor_name: Seq<char>) -> &Section {
    &settings.preprocessors[section_index(settings.preprocessors@, preprocessor_name)]
}

/// The configuration that the settings give to the preprocessor named
/// `preprocessor_name`, or the first thing that is wrong with them: the
/// title, the description, the section, its glob, its date pattern and its
/// base URL are looked at in this order.
pub open spec fn resolved_config(
    settings: &BookSettings,
    preprocessor_name: Seq<char>,
) -> Result<RssConfigView, ConfigError> {
    let at = section_index(settings.preprocessors@, preprocessor_name);
    if settings.title is None {
        Err(ConfigError::MissingBookMetadata(ConfigField::Title))
    } else if settings.description is None {
        Err(ConfigError::MissingBookMetadata(ConfigField::Description))
    } else if at >= settings.preprocessors.len() {
        Err(ConfigError::MissingPreprocessorConfig)
    } else {
        let section = section_of(settings, preprocessor_name);
        match (files_glob_of(section), date_pattern_of(section), url_base_of(section)) {
            (Err(e), _, _) => Err(e),
            (Ok(_), Err(e), _) => Err(e),
            (Ok(_), Ok(_), Err(e)) => Err(e),
            (Ok(files_glob), Ok(date_pattern), Ok(url_base)) => Ok(
                RssConfigView {
                    author: joined(author_names(settings), AUTHOR_SEPARATOR@),
                    files_glob,
                    date_pattern,
                    title: settings.title->0@,
                    description: settings.description->0@,
                    url_base,
                },
            ),
        }
    }
}

/// What `key` holds in the section, read as a string.
fn text_setting<'a>(section: &'a Section, key: &str, field: ConfigField) -> (found: Result<
    Option<&'a String>,
    ConfigError,
>)
    ensures
        match found {
            Ok(Some(text)) => lookup_text(section.settings@, key@) == Lookup::Text(text@),
            Ok(None) => lookup_text(section.settings@, key@) == Lookup::Missing,
            Err(e) => lookup_text(section.settings@, key@) == Lookup::NotText && e
                == (ConfigError::InvalidConfigField { field, fault: FieldFault::NotText }),
        },
{
    match section.get(key) {
        None => Ok(None),
        Some(SettingValue::Text(text)) => Ok(Some(text)),
        Some(SettingValue::Other) => Err(
            ConfigError::InvalidConfigField { field, fault: FieldFault::NotText },
        ),
    }
}

impl RssConfig {
    /// Reads the configuration of the preprocessor named `preprocessor_name`
    /// from the book's settings. It fails with the first thing that is wrong
    /// with them, and nothing but the settings decides the outcome.
    pub fn from_book_config(book_config: &BookSettings, preprocessor_name: &str) -> (config:
        Result<RssConfig, ConfigError>)
        ensures
            match config {
                Ok(c) => resolved_config(book_config, preprocessor_name@) == Ok::<
                    RssConfigView,
                    ConfigError,
                >(c@) && c@.is_valid(),
                Err(e) => resolved_config(book_config, preprocessor_name@) == Err::<
                    RssConfigView,
                    ConfigError,
                >(e),
            },
    {
        let title = match &book_config.title {
            Some(title) => title.clone(),
            None => return Err(ConfigError::MissingBookMetadata(ConfigField::Title)),
        };
        let description = match &book_config.description {
            Some(description) => description.clone(),
            None => return Err(ConfigError::MissingBookMetadata(ConfigField::Description)),
        };
        let author = join_names(&book_config.authors, AUTHOR_SEPARATOR);
        let section = match book_config.get_preprocessor(preprocessor_name) {
            Some(section) => section,
            None => return Err(ConfigError::MissingPreprocessorConfig),
        };
        let files_glob = match text_setting(
            section,
            CONFIG_FIELD_FILES_GLOB,
            ConfigField::FilesGlob,
        )? {
            Some(text) if build_glob(
                text.as_str(),
                GLOB_LITERAL_SEPARATOR,
                GLOB_BACKSLASH_ESCAPE,
            ) => text.clone(),
            Some(_) => return Err(
                ConfigError::InvalidConfigField {
                    field: ConfigField::FilesGlob,
                    fault: FieldFault::Malformed,
                },
            ),
            None => return Err(
                ConfigError::InvalidConfigField {
                    field: ConfigField::FilesGlob,
                    fault: FieldFault::Missing,
                },
            ),
        };
        let date_pattern = match text_setting(
            section,
            CONFIG_FIELD_DATE_PATTERN,
            ConfigField::DatePattern,
        )? {
            Some(text) => text.clone(),
            None => DEFAULT_DATE_PATTERN.to_owned(),
        };
        if !build_regex(date_pattern.as_str()) {
            return Err(
                ConfigError::InvalidConfigField {
                    field: ConfigField::DatePattern,
                    fault: FieldFault::Malformed,
                },
            );
        }
        let url_base = match text_setting(section, CONFIG_FIELD_URL_BASE, ConfigField::UrlBase)? {
            Some(text) if parse_url(text.as_str()) => text.clone(),
            Some(_) => return Err(
                ConfigError::InvalidConfigField {
                    field: ConfigField::UrlBase,
                    fault: FieldFault::Malformed,
                },
            ),
            None => return Err(
                ConfigError::InvalidConfigField {
                    field: ConfigField::UrlBase,
                    fault: FieldFault::Missing,
                },
            ),
        };
        Ok(RssConfig { author, files_glob, date_pattern, title, description, url_base })
    }

    /// The authors' names, joined.
    pub fn author(&self) -> (author: &String)
        ensures
            author@ == self@.author,
    {
        &self.author
    }

    /// The glob that selects the chapters of the feed.
    pub fn files_glob(&self) -> (files_glob: &String)
        ensures
            files_glob@ == self@.files_glob,
    {
        &self.files_glob
    }

    /// The pattern that finds a chapter's date in its file name.
    pub fn date_pattern(&self) -> (date_pattern: &String)
        ensures
            date_pattern@ == self@.date_pattern,
    {
        &self.date_pattern
    }

    /// The feed's title.
    pub fn title(&self) -> (title: &String)
        ensures
            title@ == self@.title,
    {
        &self.title
    }

    /// The feed's description.
    pub fn description(&self) -> (description: &String)
        ensures
            description@ == self@.description,
    {
        &self.description
    }

    /// The URL that chapter links are resolved against.
    pub fn url_base(&self) -> (url_base: &String)
        ensures
            url_base@ == self@.url_base,
    {
        &self.url_base
    }
}

} // verus!
