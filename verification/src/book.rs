//! The book as the feed sees it: its items in the order in which the book is
//! walked, each chapter with the text that the feed reads and rewrites.

use vstd::prelude::*;

verus! {

/// Where the source of a chapter lies, relative to the book's source
/// directory.
#[derive(Debug, Clone)]
pub enum SourcePath {
    /// The path, with `/` between its segments.
    Text(String),
    /// A path that cannot be written as text: nothing can be matched against
    /// it, and no link can be made of it.
    NotText,
}

/// A chapter of the book.
#[derive(Debug, Clone)]
pub struct Chapter {
    /// The chapter's display name.
    pub name: String,
    /// The chapter's body, in Markdown.
    pub content: String,
    /// Where the chapter's source lies. A draft chapter has no source.
    pub path: Option<SourcePath>,
}

/// An item of the book.
#[derive(Debug, Clone)]
pub enum BookItem {
    /// A chapter.
    Chapter(Chapter),
    /// A line that separates two groups of chapters.
    Separator,
    /// The title of a part of the book.
    PartTitle(String),
}

/// What a source path holds.
pub enum SourcePathView {
    Text(Seq<char>),
    NotText,
}

/// What a chapter holds.
pub struct ChapterView {
    pub name: Seq<char>,
    pub content: Seq<char>,
    pub path: Option<SourcePathView>,
}

/// What an item of the book holds.
pub enum BookItemView {
    Chapter(ChapterView),
    Separator,
    PartTitle(Seq<char>),
}

impl View for SourcePath {
    type V = SourcePathView;

    open spec fn view(&self) -> SourcePathView {
        match self {
            SourcePath::Text(path) => SourcePathView::Text(path@),
            SourcePath::NotText => SourcePathView::NotText,
        }
    }
}

impl View for Chapter {
    type V = ChapterView;

    open spec fn view(&self) -> ChapterView {
        ChapterView {
            name: self.name@,
            content: self.content@,
            path: match self.path {
                Some(path) => Some(path@),
                None => None,
            },
        }
    }
}

impl View for BookItem {
    type V = BookItemView;

    open spec fn view(&self) -> BookItemView {
        match self {
            BookItem::Chapter(chapter) => BookItemView::Chapter(chapter@),
            BookItem::Separator => BookItemView::Separator,
            BookItem::PartTitle(title) => BookItemView::PartTitle(title@),
        }
    }
}

/// What the items of a book hold, in their order.
pub open spec fn book_view(items: Seq<BookItem>) -> Seq<BookItemView> {
    items.map_values(|item: BookItem| item@)
}

} // verus!
