//! The calls into other crates. Nothing in this file is proved: each function
//! hands its arguments to one outside function, and its contract gives the
//! result a name that the rest of the library reasons with.

use vstd::prelude::*;
use globset::{GlobBuilder, GlobSetBuilder};
use gray_matter::engine::YAML;
use gray_matter::{Matter, ParsedEntity, Pod};
use markdown::message::Message;
use markdown::Options;
use regex::Regex;
use rss::{ChannelBuilder, ItemBuilder};
use url::{ParseError, Url};
use crate::feed::{FeedDocument, FeedDocumentView};
use crate::matter::{FrontMatter, FrontMatterView, MatterEntry, MatterValue};
use crate::text::occurs_in;

verus! {

/// Whether globset builds a matcher for `pattern`: it accepts the pattern
/// as a glob and compiles what it makes of it. `literal_separator` confines
/// `*` and `?` to one segment of a path; `backslash_escape` lets `\` take the
/// special meaning off the character behind it.
pub uninterp spec fn glob_builds(
    pattern: Seq<char>,
    literal_separator: bool,
    backslash_escape: bool,
) -> bool;

/// Whether the regex crate accepts `pattern` as a regular expression.
pub uninterp spec fn regex_builds(pattern: Seq<char>) -> bool;

/// Whether the url crate parses `text` as an absolute URL.
pub uninterp spec fn url_parses(text: Seq<char>) -> bool;

/// `globset::GlobSetBuilder::build`, on the set of the one glob that
/// `globset::GlobBuilder::build` makes of `pattern` under the two options:
/// tells whether both steps gave their result. Either step hands its failure
/// back as an error.
#[verifier::external_body]
pub(crate) fn build_glob(pattern: &str, literal_separator: bool, backslash_escape: bool) -> (accepted:
    bool)
    ensures
        accepted == glob_builds(pattern@, literal_separator, backslash_escape),
{
    GlobBuilder::new(pattern)
        .literal_separator(literal_separator)
        .backslash_escape(backslash_escape)
        .build()
        .and_then(|glob| GlobSetBuilder::new().add(glob).build())
        .is_ok()
}

/// `regex::Regex::new`: tells whether the pattern was accepted.
#[verifier::external_body]
pub(crate) fn build_regex(pattern: &str) -> (accepted: bool)
    ensures
        accepted == regex_builds(pattern@),
{
    Regex::new(pattern).is_ok()
}

/// `url::Url::parse`: tells whether the text was parsed.
#[verifier::external_body]
pub(crate) fn parse_url(text: &str) -> (parsed: bool)
    ensures
        parsed == url_parses(text@),
{
    Url::parse(text).is_ok()
}

/// The error of the url crate's parser.
#[verifier::external_type_specification]
#[verifier::external_body]
pub struct ExParseError(ParseError);

/// The error of the markdown crate.
#[verifier::external_type_specification]
#[verifier::external_body]
pub struct ExMessage(Message);

/// Whether the matcher that globset builds for `pattern` under the two
/// options matches `path`. A pattern for which it builds none matches nothing.
/// globset reads `/` as the separator of a path's segments; built for a
/// platform with other separators, it reads those as `/` too.
pub uninterp spec fn glob_match(
    pattern: Seq<char>,
    literal_separator: bool,
    backslash_escape: bool,
    path: Seq<char>,
) -> bool;

/// The leftmost match in `text` of the regular expression that the regex crate
/// builds from `pattern`, if there is a match. A pattern that the crate
/// refuses has none.
pub uninterp spec fn regex_find(pattern: Seq<char>, text: Seq<char>) -> Option<Seq<char>>;

/// The serialization of the URL that the url crate resolves `reference` to
/// against the URL that it parses `base` as, where both steps succeed.
pub uninterp spec fn url_join(base: Seq<char>, reference: Seq<char>) -> Option<Seq<char>>;

/// What gray_matter finds at the start of `body`, read as YAML between lines
/// of `---`, and what it leaves of the body.
pub uninterp spec fn front_matter(body: Seq<char>) -> FrontMatterView;

/// The HTML that the markdown crate compiles `text` to under its default
/// options.
pub uninterp spec fn markdown_html(text: Seq<char>) -> Seq<char>;

/// The XML that the rss crate writes for a channel with the feed's title,
/// description, generator and items.
pub uninterp spec fn channel_xml(feed: FeedDocumentView) -> Seq<char>;

/// `globset::GlobSet::is_match`, on the set of the one glob built from
/// `pattern` under the two options, as `build_glob` builds it.
#[verifier::external_body]
pub(crate) fn glob_is_match(
    pattern: &str,
    literal_separator: bool,
    backslash_escape: bool,
    path: &str,
) -> (matched: bool)
    ensures
        matched == glob_match(pattern@, literal_separator, backslash_escape, path@),
{
    let glob = GlobBuilder::new(pattern)
        .literal_separator(literal_separator)
        .backslash_escape(backslash_escape)
        .build();
    match glob.and_then(|glob| GlobSetBuilder::new().add(glob).build()) {
        Ok(set) => set.is_match(path),
        Err(_) => false,
    }
}

/// `regex::Regex::find`, on the expression built from `pattern`: the text of
/// the leftmost match, which is a part of the text searched.
#[verifier::external_body]
pub(crate) fn find_first(pattern: &str, text: &str) -> (found: Option<String>)
    ensures
        found.deep_view() == regex_find(pattern@, text@),
        found matches Some(part) ==> occurs_in(part@, text@),
{
    match Regex::new(pattern) {
        Ok(regex) => regex.find(text).map(|found| found.as_str().to_owned()),
        Err(_) => None,
    }
}

/// `url::Url::join`, on the URL parsed from `base`: the serialization of the
/// resolved URL, or the error of whichever step failed.
#[verifier::external_body]
pub(crate) fn join_url(base: &str, reference: &str) -> (joined: Result<String, ParseError>)
    ensures
        match joined {
            Ok(link) => url_join(base@, reference@) == Some(link@),
            Err(_) => url_join(base@, reference@) is None,
        },
{
    Url::parse(base)?.join(reference).map(String::from)
}

/// `gray_matter::Matter::parse` with the YAML engine and the default
/// delimiter: the data found, its top level turned into the library's own
/// values, and the content that follows the block.
#[verifier::external_body]
pub(crate) fn parse_front_matter(body: &str) -> (matter: FrontMatter)
    ensures
        matter@ == front_matter(body@),
{
    match Matter::<YAML>::new().parse::<Pod>(body) {
        Err(_) => FrontMatter::Malformed,
        Ok(ParsedEntity { data: None, content, .. }) => FrontMatter::NoData { content },
        Ok(ParsedEntity { data: Some(Pod::Hash(table)), content, .. }) => FrontMatter::Table {
            entries: table.into_iter().map(|(key, value)| MatterEntry { key, value: match value {
                Pod::Null => MatterValue::Null,
                Pod::String(text) => MatterValue::Text(text),
                _ => MatterValue::Other,
            } }).collect(),
            content,
        },
        Ok(ParsedEntity { content, .. }) => FrontMatter::Scalar { content },
    }
}

/// `markdown::to_html_with_options` with the default options: the HTML.
/// The crate documents that the call fails on nothing but faulty MDX, which
/// the default options leave turned off.
#[verifier::external_body]
pub(crate) fn render_markdown(text: &str) -> (html: Result<String, Message>)
    ensures
        html is Ok,
        html matches Ok(rendered) ==> rendered@ == markdown_html(text@),
{
    markdown::to_html_with_options(text, &Options::default())
}

/// `rss::Channel::to_string`, on the channel that the rss crate's builders
/// make of the feed: each item with its title, description, author, publish
/// date, link and content, in the feed's order.
#[verifier::external_body]
pub(crate) fn write_channel(feed: &FeedDocument) -> (xml: String)
    ensures
        xml@ == channel_xml(feed@),
{
    let items: Vec<rss::Item> = feed.items.iter().map(|item| ItemBuilder::default()
        .title(item.title.clone()).description(item.description.clone())
        .author(item.author.clone()).pub_date(item.pub_date.clone())
        .link(item.link.clone()).content(item.content.clone()).build()).collect();
    ChannelBuilder::default().title(feed.title.clone()).description(feed.description.clone())
        .generator(feed.generator.clone()).items(items).build().to_string()
}

} // verus!
