//! One pass over the book: every item is read for the feed in the order in
//! which the book is walked, and what the items give is collected in that order.

use vstd::prelude::*;
use crate::book::{book_view, BookItem, BookItemView};
use crate::config::{RssConfig, RssConfigView};
use crate::feed::{item, item_after, item_outcome, items_view, FeedItem, FeedItemView, SkipReason};

verus! {

/// An item of the book that gave no feed item.
#[derive(Debug, Clone, Copy, PartialEq, Eq, Structural)]
pub struct Skipped {
    /// The item's place in the walk, counted from 0.
    pub index: usize,
    /// Why the item was left out.
    pub reason: SkipReason,
}

/// What one pass over the book gives.
#[derive(Debug, Clone)]
pub struct Collected {
    /// The feed items, in the order of the items that gave them.
    pub items: Vec<FeedItem>,
    /// The items that gave none, in their order.
    pub skipped: Vec<Skipped>,
}

/// The feed items that the book's items give, in the order of the walk.
pub open spec fn collected_items(book: Seq<BookItemView>, config: RssConfigView) -> Seq<
    FeedItemView,
>
    decreases book.len(),
{
    if book.len() == 0 {
        Seq::empty()
    } else {
        let before = collected_items(book.drop_last(), config);
        match item_outcome(book.last(), config) {
            Ok(item) => before.push(item),
            Err(_) => before,
        }
    }
}

/// The items of the book that give no feed item, each with its place in the
/// walk and the reason, in the order of the walk.
pub open spec fn skipped_items(book: Seq<BookItemView>, config: RssConfigView) -> Seq<Skipped>
    decreases book.len(),
{
    if book.len() == 0 {
        Seq::empty()
    } else {
        let before = skipped_items(book.drop_last(), config);
        match item_outcome(book.last(), config) {
            Ok(_) => before,
            Err(reason) => before.push(Skipped { index: (book.len() - 1) as usize, reason }),
        }
    }
}

/// The book once the feed has read every item of it.
pub open spec fn book_after(book: Seq<BookItemView>, config: RssConfigView) -> Seq<BookItemView> {
    book.map_values(|item: BookItemView| item_after(item, config))
}

/// Reads every item of the book for the feed, in order. The feed items come
/// out in the order of the items that gave them; an item that gives none is
/// noted with its reason and holds nothing up.
pub fn collect(book: &mut Vec<BookItem>, config: &RssConfig) -> (collected: Collected)
    ensures
        book_view(final(book)@) == book_after(book_view(old(book)@), config@),
        items_view(collected.items@) == collected_items(book_view(old(book)@), config@),
        collected.skipped@ == skipped_items(book_view(old(book)@), config@),
{
    let mut items: Vec<FeedItem> = Vec::new();
    let mut skipped: Vec<Skipped> = Vec::new();
    let mut index: usize = 0;
    while index < book.len()
        invariant
            index <= book.len(),
            book.len() == old(book).len(),
            forall|j: int| 0 <= j < index ==> book[j]@ == item_after(#[trigger] old(book)[j]@, config@),
            forall|j: int| index <= j < book.len() ==> book[j] == #[trigger] old(book)[j],
            items_view(items@) == collected_items(
                book_view(old(book)@).take(index as int),
                config@,
            ),
            skipped@ == skipped_items(book_view(old(book)@).take(index as int), config@),
        decreases book.len() - index,
    {
        proof {
            let seen = book_view(old(book)@).take(index as int);
            let next = book_view(old(book)@).take(index + 1);
            assert(next.drop_last() == seen);
            assert(next.last() == old(book)[index as int]@);
        }
        let ghost before = items_view(items@);
        match item(&mut book[index], config) {
            Ok(feed_item) => {
                items.push(feed_item);
                assert(items_view(items@) == before.push(feed_item@));
            },
            Err(reason) => {
                skipped.push(Skipped { index, reason });
            },
        }
        index = index + 1;
    }
    proof {
        assert(book_view(old(book)@).take(index as int) == book_view(old(book)@));
        assert(book_view(book@) == book_after(book_view(old(book)@), config@));
    }
    Collected { items, skipped }
}

} // verus!
