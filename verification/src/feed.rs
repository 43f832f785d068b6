//! The feed: which items of the book become feed items, what each feed item
//! holds, and how the items are put together.

use vstd::prelude::*;
use crate::book::{BookItem, BookItemView, Chapter, ChapterView, SourcePath, SourcePathView};
use crate::config::{RssConfig, RssConfigView, GLOB_BACKSLASH_ESCAPE, GLOB_LITERAL_SEPARATOR};
use crate::matter::{
    date_resolution,
    opens_with_fence,
    resolve_date,
    starts_with_fence,
    DateResolution,
    DateResolutionView,
    FrontMatter,
};
use crate::outside::{
    find_first,
    front_matter,
    glob_is_match,
    glob_match,
    join_url,
    markdown_html,
    parse_front_matter,
    regex_find,
    render_markdown,
    url_join,
};
use crate::text::{file_name, file_name_of, occurs_in, with_extension, with_extension_of};

verus! {

/// The extension of a chapter's rendered page.
pub const RENDERED_EXTENSION: &'static str = "html";

/// The name by which the feed names what made it.
pub const GENERATOR_NAME: &'static str = "mdbook-rss";

/// The version by which the feed names what made it.
pub const GENERATOR_VERSION: &'static str = "0.1.0";

/// Why an item of the book gives no feed item.
#[derive(Debug, Clone, Copy, PartialEq, Eq, Structural)]
pub enum SkipReason {
    /// The item is no chapter.
    NotAChapter,
    /// The chapter is a draft: it has no source path.
    Draft,
    /// The chapter's path does not match the configured glob.
    GlobMismatch,
    /// The chapter's front matter cannot be read, is empty or not closed, or
    /// lacks a date.
    MalformedFrontMatter,
    /// The chapter has no front matter, and its file name holds no date.
    NoDate,
    /// The chapter's path is no text, names no file, or does not resolve
    /// to a link.
    LinkFailure,
    /// The chapter's body does not render to HTML. The renderer in use
    /// renders every body.
    RenderFailure,
}

/// An item of the feed.
#[derive(Debug, Clone)]
pub struct FeedItem {
    pub title: String,
    pub description: Option<String>,
    pub author: String,
    pub pub_date: String,
    pub link: String,
    pub content: String,
}

/// The feed.
#[derive(Debug, Clone)]
pub struct FeedDocument {
    pub title: String,
    pub description: String,
    pub generator: String,
    pub items: Vec<FeedItem>,
}

/// The feed could not be put together.
#[derive(Debug, Clone, Copy, PartialEq, Eq, Structural)]
pub struct AssemblyError;

/// What an item of the feed holds.
pub struct FeedItemView {
    pub title: Seq<char>,
    pub description: Option<Seq<char>>,
    pub author: Seq<char>,
    pub pub_date: Seq<char>,
    pub link: Seq<char>,
    pub content: Seq<char>,
}

/// What a feed holds.
pub struct FeedDocumentView {
    pub title: Seq<char>,
    pub description: Seq<char>,
    pub generator: Seq<char>,
    pub items: Seq<FeedItemView>,
}

impl View for FeedItem {
    type V = FeedItemView;

    open spec fn view(&self) -> FeedItemView {
        FeedItemView {
            title: self.title@,
            description: self.description.deep_view(),
            author: self.author@,
            pub_date: self.pub_date@,
            link: self.link@,
            content: self.content@,
        }
    }
}

/// What the items of a feed hold, in their order.
pub open spec fn items_view(items: Seq<FeedItem>) -> Seq<FeedItemView> {
    items.map_values(|item: FeedItem| item@)
}

impl View for FeedDocument {
    type V = FeedDocumentView;

    open spec fn view(&self) -> FeedDocumentView {
        FeedDocumentView {
            title: self.title@,
            description: self.description@,
            generator: self.generator@,
            items: items_view(self.items@),
        }
    }
}

/// What a chapter's item is made of, once the date, the link and the rendered
/// body have been asked for. The first of these that failed decides why the
/// chapter is skipped; with none failed, the item holds the chapter's name, the
/// description of the front matter, the configured author, the date as it was
/// found, the link and the rendered body.
pub open spec fn assembled(
    name: Seq<char>,
    author: Seq<char>,
    resolution: DateResolutionView,
    link: Option<Seq<char>>,
    html: Option<Seq<char>>,
) -> Result<FeedItemView, SkipReason> {
    match resolution {
        DateResolutionView::Malformed => Err(SkipReason::MalformedFrontMatter),
        DateResolutionView::NoMatch => Err(SkipReason::NoDate),
        _ => match (link, html) {
            (None, _) => Err(SkipReason::LinkFailure),
            (Some(_), None) => Err(SkipReason::RenderFailure),
            (Some(link), Some(content)) => Ok(
                FeedItemView {
                    title: name,
                    description: resolution.description(),
                    author,
                    pub_date: resolution.date()->0,
                    link,
                    content,
                },
            ),
        },
    }
}

/// Whether the files glob selects the chapter at `path`.
pub open spec fn selects(files_glob: Seq<char>, path: Seq<char>) -> bool {
    glob_match(files_glob, GLOB_LITERAL_SEPARATOR, GLOB_BACKSLASH_ESCAPE, path)
}

/// The link of the chapter at `path`: the chapter's rendered page, resolved
/// against the base URL as a relative link is. It is `None` where the path
/// names no file, or where the two do not resolve to a URL.
pub open spec fn link_of(url_base: Seq<char>, path: Seq<char>) -> Option<Seq<char>> {
    match with_extension_of(path, RENDERED_EXTENSION@) {
        Some(rendered) => url_join(url_base, rendered),
        None => None,
    }
}

/// The body of a chapter once the feed has read it: the front matter is taken
/// off a chapter whose path the glob selects; any other chapter keeps its
/// body.
pub open spec fn content_after(chapter: ChapterView, config: RssConfigView) -> Seq<char> {
    match chapter.path {
        Some(SourcePathView::Text(path)) if selects(config.files_glob, path) => match front_matter(
            chapter.content,
        ).remainder(opens_with_fence(chapter.content)) {
            Some(rest) => rest,
            None => chapter.content,
        },
        _ => chapter.content,
    }
}

/// The date of the chapter with this body at `path`: from the front matter of
/// the body or, where the body has none, from the file name of the path.
pub open spec fn date_of(body: Seq<char>, path: Seq<char>, date_pattern: Seq<char>) -> DateResolutionView {
    date_resolution(
        front_matter(body),
        opens_with_fence(body),
        regex_find(date_pattern, file_name_of(path)),
    )
}

/// The feed item of a chapter, or why it has none. A draft has none; a path
/// that is no text gives no link; a path that the glob does not select is
/// left alone; and of a chapter that is selected the date and the link are
/// asked for in this order, and the body is rendered.
pub open spec fn chapter_outcome(chapter: ChapterView, config: RssConfigView) -> Result<
    FeedItemView,
    SkipReason,
> {
    match chapter.path {
        None => Err(SkipReason::Draft),
        Some(SourcePathView::NotText) => Err(SkipReason::LinkFailure),
        Some(SourcePathView::Text(path)) => if !selects(config.files_glob, path) {
            Err(SkipReason::GlobMismatch)
        } else {
            assembled(
                chapter.name,
                config.author,
                date_of(chapter.content, path, config.date_pattern),
                link_of(config.url_base, path),
                Some(markdown_html(content_after(chapter, config))),
            )
        },
    }
}

/// The feed item of an item of the book, or why it has none.
pub open spec fn item_outcome(item: BookItemView, config: RssConfigView) -> Result<
    FeedItemView,
    SkipReason,
> {
    match item {
        BookItemView::Chapter(chapter) => chapter_outcome(chapter, config),
        _ => Err(SkipReason::NotAChapter),
    }
}

/// The item of the book once the feed has read it: a chapter with the body
/// that `content_after` gives, anything else as it was.
pub open spec fn item_after(item: BookItemView, config: RssConfigView) -> BookItemView {
    match item {
        BookItemView::Chapter(chapter) => BookItemView::Chapter(
            ChapterView { content: content_after(chapter, config), ..chapter },
        ),
        _ => item,
    }
}

/// Puts a chapter's feed item together from what was found of the chapter.
pub fn assemble_item(
    name: &str,
    author: &str,
    resolution: DateResolution,
    link: Option<String>,
    html: Option<String>,
) -> (outcome: Result<FeedItem, SkipReason>)
    ensures
        match outcome {
            Ok(item) => assembled(name@, author@, resolution@, link.deep_view(), html.deep_view())
                == Ok::<FeedItemView, SkipReason>(item@),
            Err(reason) => assembled(
                name@,
                author@,
                resolution@,
                link.deep_view(),
                html.deep_view(),
            ) == Err::<FeedItemView, SkipReason>(reason),
        },
{
    let (pub_date, description) = match resolution {
        DateResolution::Malformed => return Err(SkipReason::MalformedFrontMatter),
        DateResolution::NoMatch => return Err(SkipReason::NoDate),
        DateResolution::FrontMatter { date, description } => (date, description),
        DateResolution::FileName { date } => (date, None),
    };
    let link = match link {
        Some(link) => link,
        None => return Err(SkipReason::LinkFailure),
    };
    let content = match html {
        Some(html) => html,
        None => return Err(SkipReason::RenderFailure),
    };
    Ok(
        FeedItem {
            title: name.to_owned(),
            description,
            author: author.to_owned(),
            pub_date,
            link,
            content,
        },
    )
}

/// The link of the chapter at `path` under the base URL.
pub fn chapter_link(url_base: &str, path: &str) -> (link: Option<String>)
    ensures
        link.deep_view() == link_of(url_base@, path@),
{
    let rendered_path = match with_extension(path, RENDERED_EXTENSION) {
        Some(rendered_path) => rendered_path,
        None => return None,
    };
    match join_url(url_base, rendered_path.as_str()) {
        Ok(link) => Some(link),
        Err(_) => None,
    }
}

/// Reads one chapter for the feed: decides whether the chapter is part of the
/// feed, takes the front matter off its body, and builds its feed item from
/// the date, the link and the rendered body.
pub fn chapter_item(chapter: &mut Chapter, config: &RssConfig) -> (outcome: Result<
    FeedItem,
    SkipReason,
>)
    ensures
        final(chapter)@ == (ChapterView {
            content: content_after(old(chapter)@, config@),
            ..old(chapter)@
        }),
        match outcome {
            Ok(item) => chapter_outcome(old(chapter)@, config@) == Ok::<FeedItemView, SkipReason>(
                item@,
            ),
            Err(reason) => chapter_outcome(old(chapter)@, config@) == Err::<
                FeedItemView,
                SkipReason,
            >(reason),
        },
        outcome matches Ok(found) ==> (old(chapter)@.path matches Some(SourcePathView::Text(path))
            && (front_matter(old(chapter)@.content) is NoData ==> occurs_in(
            found@.pub_date,
            file_name_of(path),
        ))),
{
    let path = match &chapter.path {
        Some(SourcePath::Text(path)) => path.clone(),
        Some(SourcePath::NotText) => return Err(SkipReason::LinkFailure),
        None => return Err(SkipReason::Draft),
    };
    if !glob_is_match(
        config.files_glob().as_str(),
        GLOB_LITERAL_SEPARATOR,
        GLOB_BACKSLASH_ESCAPE,
        path.as_str(),
    ) {
        return Err(SkipReason::GlobMismatch);
    }
    let matter = parse_front_matter(chapter.content.as_str());
    let (fenced, name_match) = match &matter {
        FrontMatter::NoData { content } => if starts_with_fence(chapter.content.as_str()) {
            chapter.content = content.clone();
            (true, None)
        } else {
            let name = file_name(path.as_str());
            (false, find_first(config.date_pattern().as_str(), name.as_str()))
        },
        FrontMatter::Table { content, .. } => {
            chapter.content = content.clone();
            (true, None)
        },
        FrontMatter::Scalar { content } => {
            chapter.content = content.clone();
            (true, None)
        },
        FrontMatter::Malformed => (true, None),
    };
    let resolution = resolve_date(&matter, fenced, name_match);
    match &resolution {
        DateResolution::Malformed => return Err(SkipReason::MalformedFrontMatter),
        DateResolution::NoMatch => return Err(SkipReason::NoDate),
        _ => {},
    }
    let link = match chapter_link(config.url_base().as_str(), path.as_str()) {
        Some(link) => link,
        None => return Err(SkipReason::LinkFailure),
    };
    let html = match render_markdown(chapter.content.as_str()) {
        Ok(html) => html,
        Err(_) => return Err(SkipReason::RenderFailure),
    };
    assemble_item(
        chapter.name.as_str(),
        config.author().as_str(),
        resolution,
        Some(link),
        Some(html),
    )
}

/// Reads one item of the book for the feed. Only a chapter can give a feed
/// item, and only a chapter's body is ever rewritten.
pub fn item(book_item: &mut BookItem, config: &RssConfig) -> (outcome: Result<
    FeedItem,
    SkipReason,
>)
    ensures
        final(book_item)@ == item_after(old(book_item)@, config@),
        match outcome {
            Ok(item) => item_outcome(old(book_item)@, config@) == Ok::<FeedItemView, SkipReason>(
                item@,
            ),
            Err(reason) => item_outcome(old(book_item)@, config@) == Err::<
                FeedItemView,
                SkipReason,
            >(reason),
        },
{
    match book_item {
        BookItem::Chapter(chapter) => chapter_item(chapter, config),
        _ => Err(SkipReason::NotAChapter),
    }
}

/// How the feed names what made it: the name, a space, the version.
pub open spec fn generator_text() -> Seq<char> {
    GENERATOR_NAME@ + " "@ + GENERATOR_VERSION@
}

/// The feed of a build: the configured title and description, the generator,
/// and the items in the order given.
pub open spec fn channel_of(config: RssConfigView, items: Seq<FeedItemView>) -> FeedDocumentView {
    FeedDocumentView {
        title: config.title,
        description: config.description,
        generator: generator_text(),
        items,
    }
}

/// How the feed names what made it.
pub fn generator() -> (text: String)
    ensures
        text@ == generator_text(),
{
    let mut text = GENERATOR_NAME.to_owned();
    text.append(" ");
    text.append(GENERATOR_VERSION);
    text
}

/// Puts the feed together from the configuration and the items. The items
/// keep their order, and no input makes this fail.
pub fn rss_channel(config: &RssConfig, rss_items: Vec<FeedItem>) -> (channel: Result<
    FeedDocument,
    AssemblyError,
>)
    ensures
        channel matches Ok(feed) && feed@ == channel_of(config@, items_view(rss_items@)),
{
    Ok(
        FeedDocument {
            title: config.title().clone(),
            description: config.description().clone(),
            generator: generator(),
            items: rss_items,
        },
    )
}

} // verus!
