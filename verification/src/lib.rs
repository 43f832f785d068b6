//! Builds an RSS feed from the chapters of a book.
//!
//! The chapters that a glob selects become the items of the feed. Each takes
//! its publish date from the front matter of its body or, where the body has
//! none, from its file name; its link is its rendered page under the
//! configured base URL, and its content is its body as HTML.

use vstd::prelude::*;
use crate::book::{book_view, BookItem};
use crate::config::{resolved_config, ConfigError, RssConfig};
use crate::feed::{channel_of, rss_channel, AssemblyError, FeedDocument};
use crate::outside::{channel_xml, write_channel};
use crate::pipeline::{book_after, collect, collected_items, skipped_items, Skipped};
use crate::settings::BookSettings;
use crate::text::same_text;

pub mod book;
pub mod config;
pub mod feed;
pub mod laws;
pub mod matter;
pub mod outside;
pub mod pipeline;
pub mod settings;
pub mod text;

verus! {

/// The name of the file that the feed is written to, in the book's source
/// directory.
pub const RSS_FILE_NAME: &'static str = "rss.xml";

/// The name under which the book's settings hold the preprocessor's section.
pub const PREPROCESSOR_NAME: &'static str = "rss";

/// The one renderer whose books get a feed.
pub const SUPPORTED_RENDERER: &'static str = "html";

/// Why a build gives no feed.
#[derive(Debug, Clone, Copy, PartialEq, Eq, Structural)]
pub enum RunError {
    /// The book's settings give no configuration.
    Config(ConfigError),
    /// The feed could not be put together.
    Assembly(AssemblyError),
}

/// What a build gives.
#[derive(Debug, Clone)]
pub struct RunReport {
    /// The feed.
    pub feed: FeedDocument,
    /// The feed as XML, as it is to be written to `RSS_FILE_NAME`.
    pub xml: String,
    /// The items of the book that are not in the feed, each with the reason.
    pub skipped: Vec<Skipped>,
}

/// The preprocessor that turns the chapters of a book into an RSS feed.
pub struct RssProcessor;

impl RssProcessor {
    pub fn new() -> (processor: RssProcessor)
        ensures
            processor == RssProcessor,
    {
        RssProcessor
    }

    /// The name under which the book's settings hold this preprocessor's section.
    pub fn name(&self) -> (name: &'static str)
        ensures
            name@ == PREPROCESSOR_NAME@,
    {
        PREPROCESSOR_NAME
    }

    /// Only HTML output is served; for any other renderer the preprocessor
    /// does nothing.
    pub fn supports_renderer(&self, renderer: &str) -> (supported: bool)
        ensures
            supported == (renderer@ == SUPPORTED_RENDERER@),
    {
        same_text(renderer, SUPPORTED_RENDERER)
    }

    /// Builds the feed of a book whose items are given in the order in which
    /// the book is walked.
    ///
    /// Settings that give no configuration end the build before any item is
    /// read: the book stays as it was. Otherwise every item is read in order,
    /// the chapters of the feed lose their front matter, and the report holds
    /// the feed, its XML and what was left out. A chapter that is left out
    /// never ends the build, and a feed without items is a feed.
    pub fn run(&self, settings: &BookSettings, book: &mut Vec<BookItem>) -> (report: Result<
        RunReport,
        RunError,
    >)
        ensures
            match report {
                Ok(report) => {
                    &&& resolved_config(settings, PREPROCESSOR_NAME@) matches Ok(config)
                    &&& book_view(final(book)@) == book_after(book_view(old(book)@), config)
                    &&& report.feed@ == channel_of(
                        config,
                        collected_items(book_view(old(book)@), config),
                    )
                    &&& report.skipped@ == skipped_items(book_view(old(book)@), config)
                    &&& report.xml@ == channel_xml(report.feed@)
                },
                Err(error) => {
                    &&& resolved_config(settings, PREPROCESSOR_NAME@) matches Err(e)
                    &&& error == RunError::Config(e)
                    &&& *final(book) == *old(book)
                },
            },
    {
        let config = match RssConfig::from_book_config(settings, self.name()) {
            Ok(config) => config,
            Err(error) => return Err(RunError::Config(error)),
        };
        let collected = collect(book, &config);
        let feed = match rss_channel(&config, collected.items) {
            Ok(feed) => feed,
            Err(error) => return Err(RunError::Assembly(error)),
        };
        let xml = write_channel(&feed);
        Ok(RunReport { feed, xml, skipped: collected.skipped })
    }
}

} // verus!
