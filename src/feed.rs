use crate::book::{book_view, date_of, Book, BookView};
use vstd::prelude::*;

verus! {

/// One entry of a subscriber's reading feed, newest entries first.
#[derive(Clone, Debug, Default)]
pub struct Item {
    pub pub_date: String,
    pub id: String,
    pub user_rating: usize,
    pub title: String,
    pub link: String,
    pub author: String,
    pub image_url: String,
}

/// The channel of a feed: its title and its entries, newest first.
#[derive(Debug, Default)]
pub struct Channel {
    pub title: String,
    pub items: Vec<Item>,
}

/// A parsed feed document.
#[derive(Debug)]
pub struct Rss {
    pub channel: Channel,
}

/// A fetched feed together with the validation token (ETag) that came with it.
pub struct RssResult {
    pub rss: Rss,
    pub etag: Option<String>,
}

/// The book that an entry stands for, or `None` where its date cannot be read
/// or its title or link is empty.
pub open spec fn coerce(item: Item) -> Option<BookView> {
    if item.title@.len() == 0 || item.link@.len() == 0 {
        None
    } else {
        match date_of(item.pub_date@) {
        Some(d) => Some(
            book_view(
                item.title@,
                item.link@,
                d,
                item.id@,
                item.user_rating,
                item.author@,
                item.image_url@,
            ),
        ),
        None => None,
        }
    }
}

/// What each entry of a page coerces to, in feed order.
pub open spec fn coerce_all(items: Seq<Item>) -> Seq<Option<BookView>> {
    items.map_values(|i: Item| coerce(i))
}

impl Item {
    /// Coerces this entry into a book; fails where its date cannot be read or
    /// its title or link is empty.
    pub fn try_into(&self) -> (r: Result<Book, String>)
        ensures
            r is Ok <==> coerce(*self) is Some,
            r matches Ok(b) ==> Some(b@) == coerce(*self),
            r matches Err(e) ==> e@ == "Unable to create Book from Item"@,
    {
        match Book::new(
            self.title.as_str(),
            self.link.as_str(),
            self.pub_date.as_str(),
            self.id.as_str(),
            self.user_rating,
            self.author.as_str(),
            self.image_url.as_str(),
        ) {
            Some(book) => Ok(book),
            None => Err("Unable to create Book from Item".to_owned()),
        }
    }
}

} // verus!
