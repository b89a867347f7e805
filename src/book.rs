use chrono::Datelike;
use vstd::prelude::*;

verus! {

/// How a feed writes the moment an entry was published, e.g.
/// `Fri, 01 Jul 2022 10:21:33 -0700`.
pub const PUB_DATE_FORMAT: &'static str = "%a, %d %h %Y %H:%M:%S %z";

/// The calendar date (year, month, day) that chrono's `NaiveDate::parse_from_str`
/// reads from `text` under `format`, or `None` where it rejects the text.
pub uninterp spec fn parsed_date(text: Seq<char>, format: Seq<char>) -> Option<(i32, u32, u32)>;

/// Relies on chrono's `NaiveDate::parse_from_str` for the date written in `text`,
/// and on `NaiveDate::month` (1 to 12) and `NaiveDate::day` (1 to 31) for its range.
#[verifier::external_body]
fn parse_date(text: &str, format: &str) -> (r: Option<(i32, u32, u32)>)
    ensures
        r == parsed_date(text@, format@),
        r matches Some(t) ==> 1 <= t.1 <= 12 && 1 <= t.2 <= 31,
{
    chrono::NaiveDate::parse_from_str(text, format).ok().map(|d| (d.year(), d.month(), d.day()))
}

/// The day on which a book was finished.
#[derive(Clone, Copy, Debug, PartialEq, Eq, Structural)]
pub struct CompletionDate {
    pub year: i32,
    pub month: u32,
    pub day: u32,
}

impl CompletionDate {
    pub open spec fn wf(self) -> bool {
        1 <= self.month <= 12 && 1 <= self.day <= 31
    }
}

/// The completion date written in a feed's publication field, if it can be read.
pub open spec fn date_of(text: Seq<char>) -> Option<CompletionDate> {
    match parsed_date(text, PUB_DATE_FORMAT@) {
        Some(t) => Some(CompletionDate { year: t.0, month: t.1, day: t.2 }),
        None => None,
    }
}

/// A finished book, as announced to the subscriber's channel.
#[derive(Debug)]
pub struct Book {
    pub title: String,
    pub url: String,
    pub completed: CompletionDate,
    pub id: String,
    pub rating: usize,
    pub author: String,
    pub image_url: String,
}

/// What a book says, with its text fields as character sequences.
pub struct BookView {
    pub title: Seq<char>,
    pub url: Seq<char>,
    pub completed: CompletionDate,
    pub id: Seq<char>,
    pub rating: usize,
    pub author: Seq<char>,
    pub image_url: Seq<char>,
}

impl View for Book {
    type V = BookView;

    open spec fn view(&self) -> BookView {
        BookView {
            title: self.title@,
            url: self.url@,
            completed: self.completed,
            id: self.id@,
            rating: self.rating,
            author: self.author@,
            image_url: self.image_url@,
        }
    }
}

/// The book that the given fields describe once its completion date is known.
pub open spec fn book_view(
    title: Seq<char>,
    url: Seq<char>,
    completed: CompletionDate,
    id: Seq<char>,
    rating: usize,
    author: Seq<char>,
    image_url: Seq<char>,
) -> BookView {
    BookView { title, url, completed, id, rating, author, image_url }
}

impl Book {
    /// Builds a book whose completion date was already read. There is no book
    /// without a date, or with an empty title or link.
    pub fn from_parts(
        title: &str,
        url: &str,
        completed: Option<CompletionDate>,
        id: &str,
        rating: usize,
        author: &str,
        image_url: &str,
    ) -> (r: Option<Book>)
        ensures
            r is Some <==> (completed is Some && title@.len() > 0 && url@.len() > 0),
            r matches Some(b) ==> b@ == book_view(
                title@,
                url@,
                completed.unwrap(),
                id@,
                rating,
                author@,
                image_url@,
            ),
    {
        if title.is_empty() || url.is_empty() {
            return None;
        }
        match completed {
            Some(date) => Some(
                Book {
                    title: title.to_owned(),
                    url: url.to_owned(),
                    completed: date,
                    id: id.to_owned(),
                    rating,
                    author: author.to_owned(),
                    image_url: image_url.to_owned(),
                },
            ),
            None => None,
        }
    }

    /// Builds a book from a feed entry's fields, reading the completion date from
    /// `completed` in the feed's date format; `None` when that date cannot be
    /// read or the title or link is empty.
    pub fn new(
        title: &str,
        url: &str,
        completed: &str,
        id: &str,
        rating: usize,
        author: &str,
        image_url: &str,
    ) -> (r: Option<Book>)
        ensures
            r is Some <==> (date_of(completed@) is Some && title@.len() > 0 && url@.len() > 0),
            r matches Some(b) ==> b@ == book_view(
                title@,
                url@,
                date_of(completed@).unwrap(),
                id@,
                rating,
                author@,
                image_url@,
            ),
            r matches Some(b) ==> b.completed.wf(),
    {
        let date = match parse_date(completed, PUB_DATE_FORMAT) {
            Some(t) => Some(CompletionDate { year: t.0, month: t.1, day: t.2 }),
            None => None,
        };
        Book::from_parts(title, url, date, id, rating, author, image_url)
    }

    /// An equal copy of this book.
    pub fn duplicate(&self) -> (r: Book)
        ensures
            r@ == self@,
    {
        Book {
            title: self.title.clone(),
            url: self.url.clone(),
            completed: self.completed,
            id: self.id.clone(),
            rating: self.rating,
            author: self.author.clone(),
            image_url: self.image_url.clone(),
        }
    }

    pub fn url(&self) -> (r: &String)
        ensures
            r == &self.url,
    {
        &self.url
    }

    pub fn title(&self) -> (r: &String)
        ensures
            r == &self.title,
    {
        &self.title
    }

    pub fn id(&self) -> (r: &String)
        ensures
            r == &self.id,
    {
        &self.id
    }

    pub fn rating(&self) -> (r: usize)
        ensures
            r == self.rating,
    {
        self.rating
    }

    pub fn author(&self) -> (r: &String)
        ensures
            r == &self.author,
    {
        &self.author
    }

    pub fn image(&self) -> (r: &String)
        ensures
            r == &self.image_url,
    {
        &self.image_url
    }

    pub fn completed(&self) -> (r: CompletionDate)
        ensures
            r == self.completed,
    {
        self.completed
    }
}

} // verus!
