//! Front matter: the block of keys that a chapter's body may start with, and
//! the publish date that is read from it or, failing a block, from the
//! chapter's file name.
//!
//! A body has front matter when its first line is the fence: three dashes,
//! with nothing but blanks behind them. Front matter must give a date: a body
//! that opens with the fence and holds no data behind it is as malformed as
//! one whose data lacks the date.

use vstd::prelude::*;
use crate::text::{first_index_of, lemma_first_index_is, same_text};

verus! {

/// The key of the front matter that holds the publish date.
pub const FIELD_DATE: &'static str = "date";

/// The key of the front matter that holds the description.
pub const FIELD_DESCRIPTION: &'static str = "description";

/// What a key of the front matter holds.
#[derive(Debug, Clone)]
pub enum MatterValue {
    /// Nothing: the key is there without a value.
    Null,
    /// A string.
    Text(String),
    /// A number, a truth value, a list or a table.
    Other,
}

/// One key of the front matter, with what it holds.
#[derive(Debug, Clone)]
pub struct MatterEntry {
    pub key: String,
    pub value: MatterValue,
}

/// What the start of a chapter's body was found to be.
#[derive(Debug, Clone)]
pub enum FrontMatter {
    /// No data was found: the body starts with no block, or with a block that
    /// is empty or not closed. `content` is what is left of the body when the
    /// lines of such a block are taken off.
    NoData { content: String },
    /// The body starts with a block of keys; `content` is what follows it.
    Table { entries: Vec<MatterEntry>, content: String },
    /// The body starts with a block that holds a value other than a table of keys;
    /// `content` is what follows it.
    Scalar { content: String },
    /// The body starts with a block that cannot be read.
    Malformed,
}

/// What a value of the front matter holds.
pub enum MatterValueView {
    Null,
    Text(Seq<char>),
    Other,
}

/// What a front matter holds: the keys of a block as a map, in no order.
pub enum FrontMatterView {
    NoData { content: Seq<char> },
    Table { table: Map<Seq<char>, MatterValueView>, content: Seq<char> },
    Scalar { content: Seq<char> },
    Malformed,
}

impl View for MatterValue {
    type V = MatterValueView;

    open spec fn view(&self) -> MatterValueView {
        match self {
            MatterValue::Null => MatterValueView::Null,
            MatterValue::Text(text) => MatterValueView::Text(text@),
            MatterValue::Other => MatterValueView::Other,
        }
    }
}

/// The keys of the entries, in their order.
pub open spec fn entry_keys(entries: Seq<MatterEntry>) -> Seq<Seq<char>> {
    entries.map_values(|entry: MatterEntry| entry.key@)
}

/// The entries as a map from each key to what its first entry holds.
pub open spec fn table_of(entries: Seq<MatterEntry>) -> Map<Seq<char>, MatterValueView> {
    Map::new(
        |key: Seq<char>| first_index_of(entry_keys(entries), key) < entries.len(),
        |key: Seq<char>| entries[first_index_of(entry_keys(entries), key)].value@,
    )
}

impl View for FrontMatter {
    type V = FrontMatterView;

    open spec fn view(&self) -> FrontMatterView {
        match self {
            FrontMatter::NoData { content } => FrontMatterView::NoData { content: content@ },
            FrontMatter::Table { entries, content } => FrontMatterView::Table {
                table: table_of(entries@),
                content: content@,
            },
            FrontMatter::Scalar { content } => FrontMatterView::Scalar { content: content@ },
            FrontMatter::Malformed => FrontMatterView::Malformed,
        }
    }
}

impl FrontMatterView {
    /// What a body whose front matter is this one is rewritten to, where
    /// `fenced` tells whether the body opens with the fence: what follows the
    /// block, or nothing new where no block was taken off.
    pub open spec fn remainder(self, fenced: bool) -> Option<Seq<char>> {
        match self {
            FrontMatterView::NoData { content } => if fenced {
                Some(content)
            } else {
                None
            },
            FrontMatterView::Table { content, .. } => Some(content),
            FrontMatterView::Scalar { content } => Some(content),
            FrontMatterView::Malformed => None,
        }
    }
}

/// Whether `c` may stand behind the dashes of the fence.
pub open spec fn is_blank(c: char) -> bool {
    c == ' ' || c == '\t' || c == '\r'
}

/// Whether `line` is the fence: three dashes, then blanks only.
pub open spec fn is_fence(line: Seq<char>) -> bool {
    &&& line.len() >= 3
    &&& forall|i: int|
        0 <= i < line.len() ==> if i < 3 {
            line[i] == '-'
        } else {
            is_blank(#[trigger] line[i])
        }
}

/// Whether the first line of `body` is the fence, with a line after it.
pub open spec fn opens_with_fence(body: Seq<char>) -> bool {
    exists|end: int|
        0 <= end < body.len() && body[end] == '\n' && is_fence(#[trigger] body.take(end))
}

/// Where a chapter's publish date comes from.
#[derive(Debug, Clone)]
pub enum DateResolution {
    /// The front matter gives the date, and the description if it has one.
    FrontMatter { date: String, description: Option<String> },
    /// The body has no front matter, and the file name holds the date.
    FileName { date: String },
    /// The body has front matter, but not with a string under `date` and a
    /// string or nothing under `description`.
    Malformed,
    /// The body has no front matter, and the file name holds no date.
    NoMatch,
}

/// What a date resolution holds.
pub enum DateResolutionView {
    FrontMatter { date: Seq<char>, description: Option<Seq<char>> },
    FileName { date: Seq<char> },
    Malformed,
    NoMatch,
}

impl View for DateResolution {
    type V = DateResolutionView;

    open spec fn view(&self) -> DateResolutionView {
        match self {
            DateResolution::FrontMatter { date, description } => DateResolutionView::FrontMatter {
                date: date@,
                description: description.deep_view(),
            },
            DateResolution::FileName { date } => DateResolutionView::FileName { date: date@ },
            DateResolution::Malformed => DateResolutionView::Malformed,
            DateResolution::NoMatch => DateResolutionView::NoMatch,
        }
    }
}

impl DateResolutionView {
    /// The date, where one was found.
    pub open spec fn date(self) -> Option<Seq<char>> {
        match self {
            DateResolutionView::FrontMatter { date, .. } => Some(date),
            DateResolutionView::FileName { date } => Some(date),
            _ => None,
        }
    }

    /// The description, where the front matter gave one.
    pub open spec fn description(self) -> Option<Seq<char>> {
        match self {
            DateResolutionView::FrontMatter { description, .. } => description,
            _ => None,
        }
    }
}

/// The date that a table of keys gives: `date` must hold a string, and
/// `description` a string or nothing.
pub open spec fn table_resolution(table: Map<Seq<char>, MatterValueView>) -> DateResolutionView {
    if !table.dom().contains(FIELD_DATE@) {
        DateResolutionView::Malformed
    } else {
        match table[FIELD_DATE@] {
            MatterValueView::Text(date) => if !table.dom().contains(FIELD_DESCRIPTION@) {
                DateResolutionView::FrontMatter { date, description: None }
            } else {
                match table[FIELD_DESCRIPTION@] {
                    MatterValueView::Null => DateResolutionView::FrontMatter {
                        date,
                        description: None,
                    },
                    MatterValueView::Text(description) => DateResolutionView::FrontMatter {
                        date,
                        description: Some(description),
                    },
                    MatterValueView::Other => DateResolutionView::Malformed,
                }
            },
            _ => DateResolutionView::Malformed,
        }
    }
}

/// The publish date of a chapter with this front matter, where `fenced` tells
/// whether the body opens with the fence and `name_match` is the first match
/// of the date pattern in the chapter's file name. Front matter comes first:
/// the file name is asked only where the body has none.
pub open spec fn date_resolution(
    matter: FrontMatterView,
    fenced: bool,
    name_match: Option<Seq<char>>,
) -> DateResolutionView {
    match matter {
        FrontMatterView::NoData { .. } => if fenced {
            DateResolutionView::Malformed
        } else {
            match name_match {
                Some(date) => DateResolutionView::FileName { date },
                None => DateResolutionView::NoMatch,
            }
        },
        FrontMatterView::Table { table, .. } => table_resolution(table),
        FrontMatterView::Scalar { .. } => DateResolutionView::Malformed,
        FrontMatterView::Malformed => DateResolutionView::Malformed,
    }
}

/// What the first entry under `key` holds, if there is one.
pub fn find_entry<'a>(entries: &'a Vec<MatterEntry>, key: &str) -> (found: Option<
    &'a MatterValue,
>)
    ensures
        found is Some <==> table_of(entries@).dom().contains(key@),
        found matches Some(value) ==> value@ == table_of(entries@)[key@],
{
    let mut i: usize = 0;
    while i < entries.len()
        invariant
            i <= entries.len(),
            forall|j: int| 0 <= j < i ==> entry_keys(entries@)[j] != key@,
        decreases entries.len() - i,
    {
        if same_text(entries[i].key.as_str(), key) {
            proof {
                lemma_first_index_is(entry_keys(entries@), key@, i as int);
            }
            return Some(&entries[i].value);
        }
        i = i + 1;
    }
    proof {
        lemma_first_index_is(entry_keys(entries@), key@, i as int);
    }
    None
}

/// The date that the keys of a block give.
pub fn resolve_table(entries: &Vec<MatterEntry>) -> (resolution: DateResolution)
    ensures
        resolution@ == table_resolution(table_of(entries@)),
{
    let date = match find_entry(entries, FIELD_DATE) {
        Some(MatterValue::Text(date)) => date.clone(),
        _ => return DateResolution::Malformed,
    };
    match find_entry(entries, FIELD_DESCRIPTION) {
        None => DateResolution::FrontMatter { date, description: None },
        Some(MatterValue::Null) => DateResolution::FrontMatter { date, description: None },
        Some(MatterValue::Text(description)) => DateResolution::FrontMatter {
            date,
            description: Some(description.clone()),
        },
        Some(MatterValue::Other) => DateResolution::Malformed,
    }
}

/// The publish date of a chapter with this front matter, where `fenced` tells
/// whether the body opens with the fence and `name_match` is the first match
/// of the date pattern in the chapter's file name.
pub fn resolve_date(matter: &FrontMatter, fenced: bool, name_match: Option<String>) -> (resolution:
    DateResolution)
    ensures
        resolution@ == date_resolution(matter@, fenced, name_match.deep_view()),
{
    match matter {
        FrontMatter::NoData { .. } => if fenced {
            DateResolution::Malformed
        } else {
            match name_match {
                Some(date) => DateResolution::FileName { date },
                None => DateResolution::NoMatch,
            }
        },
        FrontMatter::Table { entries, .. } => resolve_table(entries),
        FrontMatter::Scalar { .. } => DateResolution::Malformed,
        FrontMatter::Malformed => DateResolution::Malformed,
    }
}

/// Whether the first line of `body` is the fence, with a line after it.
pub fn starts_with_fence(body: &str) -> (fenced: bool)
    ensures
        fenced == opens_with_fence(body@),
{
    let len: usize = body.unicode_len();
    let mut i: usize = 0;
    for c in it: body.chars()
        invariant
            i == it.index(),
            len == body@.len(),
            it.seq() == body@,
            forall|j: int| 0 <= j < i ==> body@[j] != '\n',
            forall|j: int|
                0 <= j < i ==> if j < 3 {
                    body@[j] == '-'
                } else {
                    is_blank(#[trigger] body@[j])
                },
    {
        if c == '\n' {
            proof {
                if i >= 3 {
                    assert(is_fence(body@.take(i as int)));
                } else {
                    assert forall|end: int|
                        0 <= end < body@.len() && body@[end] == '\n' implies !is_fence(
                        #[trigger] body@.take(end),
                    ) by {
                        if end > i {
                            assert(body@.take(end)[i as int] == '\n');
                        }
                    }
                }
            }
            return i >= 3;
        }
        let fits = if i < 3 {
            c == '-'
        } else {
            c == ' ' || c == '\t' || c == '\r'
        };
        if !fits {
            proof {
                assert forall|end: int|
                    0 <= end < body@.len() && body@[end] == '\n' implies !is_fence(
                    #[trigger] body@.take(end),
                ) by {
                    if end > i {
                        assert(body@.take(end)[i as int] == c);
                    }
                }
            }
            return false;
        }
        i = i + 1;
    }
    false
}

} // verus!
