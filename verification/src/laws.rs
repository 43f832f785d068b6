//! What holds of every book and every configuration: which chapters can be in
//! the feed, where their dates come from, and that the feed keeps the order of
//! the walk.

use vstd::prelude::*;
use crate::book::{BookItemView, ChapterView, SourcePathView};
use crate::config::{
    author_names,
    date_pattern_of,
    files_glob_of,
    resolved_config,
    section_of,
    url_base_of,
    ConfigError,
    ConfigField,
    FieldFault,
    RssConfigView,
    AUTHOR_SEPARATOR,
    CONFIG_FIELD_DATE_PATTERN,
    CONFIG_FIELD_FILES_GLOB,
    CONFIG_FIELD_URL_BASE,
    DEFAULT_DATE_PATTERN,
};
use crate::feed::{
    chapter_outcome,
    content_after,
    date_of,
    item_outcome,
    link_of,
    selects,
    FeedItemView,
    SkipReason,
};
use crate::matter::{
    opens_with_fence,
    FrontMatterView,
    MatterValueView,
    FIELD_DATE,
    FIELD_DESCRIPTION,
};
use crate::outside::{front_matter, markdown_html, regex_builds, regex_find};
use crate::pipeline::{collected_items, skipped_items};
use crate::settings::{lookup_text, section_index, BookSettings};
use crate::text::{file_name_of, joined, names_a_file};

verus! {

/// Settings give a configuration exactly when the book has a title and a
/// description and a section for the preprocessor, and the section gives a
/// glob, a date pattern and a base URL. The configuration is then valid, holds
/// the book's title and description, and names the authors in their order.
pub proof fn config_is_resolved_exactly_when(settings: &BookSettings, name: Seq<char>)
    ensures
        resolved_config(settings, name) is Ok <==> {
            &&& settings.title is Some
            &&& settings.description is Some
            &&& section_index(settings.preprocessors@, name) < settings.preprocessors.len()
            &&& files_glob_of(section_of(settings, name)) is Ok
            &&& date_pattern_of(section_of(settings, name)) is Ok
            &&& url_base_of(section_of(settings, name)) is Ok
        },
        resolved_config(settings, name) matches Ok(config) ==> {
            &&& config.is_valid()
            &&& config.title == settings.title->0@
            &&& config.description == settings.description->0@
            &&& config.author == joined(author_names(settings), AUTHOR_SEPARATOR@)
        },
{
}

/// Settings whose section for the preprocessor lacks the glob or the base URL
/// give no configuration; a section without a date pattern is no fault.
pub proof fn config_needs_glob_and_url_base(settings: &BookSettings, name: Seq<char>)
    requires
        section_index(settings.preprocessors@, name) < settings.preprocessors.len(),
    ensures
        lookup_text(section_of(settings, name).settings@, CONFIG_FIELD_FILES_GLOB@) is Missing
            ==> resolved_config(settings, name) is Err,
        lookup_text(section_of(settings, name).settings@, CONFIG_FIELD_URL_BASE@) is Missing
            ==> resolved_config(settings, name) is Err,
        lookup_text(section_of(settings, name).settings@, CONFIG_FIELD_DATE_PATTERN@) is Missing
            ==> date_pattern_of(section_of(settings, name)) == if regex_builds(
            DEFAULT_DATE_PATTERN@,
        ) {
            Ok::<Seq<char>, ConfigError>(DEFAULT_DATE_PATTERN@)
        } else {
            Err::<Seq<char>, ConfigError>(
                ConfigError::InvalidConfigField {
                    field: ConfigField::DatePattern,
                    fault: FieldFault::Malformed,
                },
            )
        },
{
}

/// A chapter without a source path gives no feed item and keeps its body,
/// whatever the configuration.
pub proof fn draft_gives_no_item(chapter: ChapterView, config: RssConfigView)
    requires
        chapter.path is None,
    ensures
        chapter_outcome(chapter, config) == Err::<FeedItemView, SkipReason>(SkipReason::Draft),
        content_after(chapter, config) == chapter.content,
{
}

/// A book with a draft chapter has the feed of the book without that chapter.
pub proof fn draft_adds_nothing_to_the_feed(
    book: Seq<BookItemView>,
    config: RssConfigView,
    at: int,
)
    requires
        0 <= at < book.len(),
        book[at] matches BookItemView::Chapter(chapter) && chapter.path is None,
    ensures
        collected_items(book, config) == collected_items(book.remove(at), config),
{
    skipped_item_changes_nothing(book, config, at);
}

/// A chapter whose path is no text, or names no file, gives no feed item.
pub proof fn unlinkable_path_gives_no_item(chapter: ChapterView, config: RssConfigView)
    requires
        chapter.path matches Some(source) && (source matches SourcePathView::Text(path)
            ==> !names_a_file(path)),
    ensures
        chapter_outcome(chapter, config) is Err,
        chapter.path == Some(SourcePathView::NotText) ==> chapter_outcome(chapter, config) == Err::<
            FeedItemView,
            SkipReason,
        >(SkipReason::LinkFailure) && content_after(chapter, config) == chapter.content,
{
}

/// A chapter has a feed item exactly when it has a path that the glob
/// selects, a date was found for it and its path resolves to a link; the item
/// then holds the chapter's name, the configured author, what was found, and
/// the chapter's body, without its front matter, as HTML.
pub proof fn chapter_is_selected_exactly_when(chapter: ChapterView, config: RssConfigView)
    ensures
        chapter_outcome(chapter, config) is Ok <==> {
            &&& chapter.path matches Some(SourcePathView::Text(path))
            &&& selects(config.files_glob, path)
            &&& date_of(chapter.content, path, config.date_pattern).date() is Some
            &&& link_of(config.url_base, path) is Some
        },
        chapter_outcome(chapter, config) matches Ok(item) ==> {
            &&& chapter.path matches Some(SourcePathView::Text(path))
            &&& item.title == chapter.name
            &&& item.author == config.author
            &&& Some(item.pub_date) == date_of(chapter.content, path, config.date_pattern).date()
            &&& item.description == date_of(
                chapter.content,
                path,
                config.date_pattern,
            ).description()
            &&& Some(item.link) == link_of(config.url_base, path)
            &&& item.content == markdown_html(content_after(chapter, config))
        },
{
}

/// Where the glob selects a chapter's path and the chapter's front matter
/// holds a string under `date`, the chapter has a feed item exactly when its
/// path resolves to a link and the front matter holds a string or nothing
/// under `description`. The item is published under the very string that
/// `date` holds, and its content is what follows the front matter, as HTML.
pub proof fn front_matter_date_is_published(
    chapter: ChapterView,
    config: RssConfigView,
    path: Seq<char>,
    date: Seq<char>,
)
    requires
        chapter.path == Some(SourcePathView::Text(path)),
        selects(config.files_glob, path),
        front_matter(chapter.content) matches FrontMatterView::Table { table, .. }
            && table.dom().contains(FIELD_DATE@) && table[FIELD_DATE@] == MatterValueView::Text(
            date,
        ),
    ensures
        chapter_outcome(chapter, config) is Ok <==> {
            &&& front_matter(chapter.content) matches FrontMatterView::Table { table, .. }
            &&& table.dom().contains(FIELD_DESCRIPTION@) ==> table[FIELD_DESCRIPTION@]
                != MatterValueView::Other
            &&& link_of(config.url_base, path) is Some
        },
        chapter_outcome(chapter, config) matches Ok(item) ==> {
            &&& item.pub_date == date
            &&& item.content == markdown_html(front_matter(chapter.content)->Table_content)
        },
        content_after(chapter, config) == front_matter(chapter.content)->Table_content,
{
}

/// Where the glob selects a chapter's path and the chapter's body has no
/// front matter, the first match of the date pattern in the chapter's file
/// name is the date of the chapter's feed item: with a match, the chapter has
/// a feed item exactly when its path resolves to a link, and the item has
/// that date and no description; without a match the chapter has no feed
/// item. The body stays as it is.
pub proof fn file_name_date_is_published(
    chapter: ChapterView,
    config: RssConfigView,
    path: Seq<char>,
)
    requires
        chapter.path == Some(SourcePathView::Text(path)),
        selects(config.files_glob, path),
        front_matter(chapter.content) is NoData,
        !opens_with_fence(chapter.content),
    ensures
        match regex_find(config.date_pattern, file_name_of(path)) {
            Some(date) => {
                &&& chapter_outcome(chapter, config) is Ok <==> link_of(config.url_base, path)
                    is Some
                &&& chapter_outcome(chapter, config) matches Ok(item) ==> item.pub_date == date
                    && item.description is None && item.content == markdown_html(
                    chapter.content,
                )
            },
            None => chapter_outcome(chapter, config) == Err::<FeedItemView, SkipReason>(
                SkipReason::NoDate,
            ),
        },
        content_after(chapter, config) == chapter.content,
{
}

/// A body that opens with the fence must give a date: where the glob selects
/// the chapter's path and no data stands behind the fence, the chapter has no
/// feed item, whatever its file name holds.
pub proof fn fence_without_data_gives_no_item(
    chapter: ChapterView,
    config: RssConfigView,
    path: Seq<char>,
)
    requires
        chapter.path == Some(SourcePathView::Text(path)),
        selects(config.files_glob, path),
        front_matter(chapter.content) is NoData,
        opens_with_fence(chapter.content),
    ensures
        chapter_outcome(chapter, config) == Err::<FeedItemView, SkipReason>(
            SkipReason::MalformedFrontMatter,
        ),
        content_after(chapter, config) == front_matter(chapter.content)->NoData_content,
{
}

/// The feed of two runs of items, one after the other, is the feed of the
/// first followed by the feed of the second.
pub proof fn feed_of_concatenation(
    first: Seq<BookItemView>,
    second: Seq<BookItemView>,
    config: RssConfigView,
)
    ensures
        collected_items(first + second, config) == collected_items(first, config)
            + collected_items(second, config),
    decreases second.len(),
{
    if second.len() == 0 {
        assert(first + second == first);
    } else {
        feed_of_concatenation(first, second.drop_last(), config);
        assert((first + second).drop_last() == first + second.drop_last());
        assert((first + second).last() == second.last());
    }
}

/// The feed item of an item of the book stands in the feed behind the feed
/// items of all that the walk reached before it, and before those of all that
/// the walk reached after it.
pub proof fn item_stands_at_its_place(
    book: Seq<BookItemView>,
    config: RssConfigView,
    at: int,
    item: FeedItemView,
)
    requires
        0 <= at < book.len(),
        item_outcome(book[at], config) == Ok::<FeedItemView, SkipReason>(item),
    ensures
        collected_items(book, config) == collected_items(book.take(at), config).push(item)
            + collected_items(book.skip(at + 1), config),
{
    let upto = book.take(at + 1);
    assert(upto.drop_last() == book.take(at));
    assert(upto.last() == book[at]);
    assert(book == upto + book.skip(at + 1));
    feed_of_concatenation(upto, book.skip(at + 1), config);
}

/// Leaving out an item that gives no feed item leaves the feed as it is: the
/// other items keep their order.
pub proof fn skipped_item_changes_nothing(book: Seq<BookItemView>, config: RssConfigView, at: int)
    requires
        0 <= at < book.len(),
        item_outcome(book[at], config) is Err,
    ensures
        collected_items(book, config) == collected_items(book.remove(at), config),
{
    let upto = book.take(at + 1);
    assert(upto.drop_last() == book.take(at));
    assert(upto.last() == book[at]);
    assert(book == upto + book.skip(at + 1));
    feed_of_concatenation(upto, book.skip(at + 1), config);
    assert(book.remove(at) == book.take(at) + book.skip(at + 1));
    feed_of_concatenation(book.take(at), book.skip(at + 1), config);
}

/// Leaving out an item that gives a feed item takes that feed item out of the
/// feed and leaves the others in their order.
pub proof fn selected_item_adds_one(
    book: Seq<BookItemView>,
    config: RssConfigView,
    at: int,
    item: FeedItemView,
)
    requires
        0 <= at < book.len(),
        item_outcome(book[at], config) == Ok::<FeedItemView, SkipReason>(item),
    ensures
        collected_items(book, config) == collected_items(book.remove(at), config).insert(
            collected_items(book.take(at), config).len() as int,
            item,
        ),
{
    item_stands_at_its_place(book, config, at, item);
    assert(book.remove(at) == book.take(at) + book.skip(at + 1));
    feed_of_concatenation(book.take(at), book.skip(at + 1), config);
    let before = collected_items(book.take(at), config);
    let after = collected_items(book.skip(at + 1), config);
    assert((before + after).insert(before.len() as int, item) == before.push(item) + after);
}

/// Every item of the book is either in the feed or among the skipped, and
/// what is skipped is noted with its own place and reason.
pub proof fn every_item_is_collected_or_skipped(book: Seq<BookItemView>, config: RssConfigView)
    requires
        book.len() <= usize::MAX,
    ensures
        collected_items(book, config).len() + skipped_items(book, config).len() == book.len(),
        forall|k: int|
            0 <= k < skipped_items(book, config).len() ==> {
                let skipped = #[trigger] skipped_items(book, config)[k];
                &&& 0 <= skipped.index < book.len()
                &&& item_outcome(book[skipped.index as int], config) == Err::<
                    FeedItemView,
                    SkipReason,
                >(skipped.reason)
            },
    decreases book.len(),
{
    if book.len() > 0 {
        let before = book.drop_last();
        every_item_is_collected_or_skipped(before, config);
        assert forall|k: int| 0 <= k < skipped_items(book, config).len() implies {
            let skipped = #[trigger] skipped_items(book, config)[k];
            &&& 0 <= skipped.index < book.len()
            &&& item_outcome(book[skipped.index as int], config) == Err::<
                FeedItemView,
                SkipReason,
            >(skipped.reason)
        } by {
            if k < skipped_items(before, config).len() {
                let skipped = skipped_items(before, config)[k];
                assert(skipped_items(book, config)[k] == skipped);
                assert(before[skipped.index as int] == book[skipped.index as int]);
            } else {
                assert(skipped_items(book, config)[k].index == book.len() - 1);
            }
        }
    }
}

/// A feed has at most as many items as the book.
pub proof fn feed_is_no_longer_than_the_book(book: Seq<BookItemView>, config: RssConfigView)
    ensures
        collected_items(book, config).len() <= book.len(),
    decreases book.len(),
{
    if book.len() > 0 {
        feed_is_no_longer_than_the_book(book.drop_last(), config);
    }
}

/// Resolving the link of one path against one base URL gives one result,
/// however often it is done.
pub proof fn link_is_repeatable(
    url_base: Seq<char>,
    path: Seq<char>,
    first: Option<Seq<char>>,
    second: Option<Seq<char>>,
)
    requires
        first == link_of(url_base, path),
        second == link_of(url_base, path),
    ensures
        first == second,
{
}

} // verus!
