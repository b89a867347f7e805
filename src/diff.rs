use crate::book::{Book, BookView};
use crate::feed::{coerce, coerce_all, Item};
use vstd::prelude::*;

verus! {

/// Where a newest-first scan for cursor `c` stops: the first position whose
/// entry id is `c`, or the end of the page when no entry has that id.
pub open spec fn scan_end(items: Seq<Item>, c: Seq<char>) -> int
    decreases items.len(),
{
    if items.len() == 0 {
        0
    } else if items[0].id@ == c {
        0
    } else {
        1 + scan_end(items.drop_first(), c)
    }
}

/// The books present in `s`, in order, with the entries that did not coerce left out.
pub open spec fn somes(s: Seq<Option<BookView>>) -> Seq<BookView>
    decreases s.len(),
{
    if s.len() == 0 {
        Seq::empty()
    } else {
        let rest = somes(s.drop_last());
        match s.last() {
            Some(b) => rest.push(b),
            None => rest,
        }
    }
}

pub open spec fn opt_view(o: Option<Book>) -> Option<BookView> {
    match o {
        Some(b) => Some(b@),
        None => None,
    }
}

pub open spec fn opt_views(s: Seq<Option<Book>>) -> Seq<Option<BookView>> {
    s.map_values(|o: Option<Book>| opt_view(o))
}

pub open spec fn views(s: Seq<Book>) -> Seq<BookView> {
    s.map_values(|b: Book| b@)
}

pub open spec fn text_of(o: Option<String>) -> Option<Seq<char>> {
    match o {
        Some(s) => Some(s@),
        None => None,
    }
}

/// The new books and the new cursor for a page `items` whose entries coerce to
/// `coerced`, seen by a subscriber at `cursor`.
/// Without a cursor nothing is new and the cursor becomes the newest entry's id.
/// With one, the books before the cursor's entry (or of the whole page, where
/// the cursor is not on it) are new, and the cursor moves to the newest entry's
/// id when there is at least one; `None` means the cursor stays where it was.
pub open spec fn diff_spec(
    items: Seq<Item>,
    coerced: Seq<Option<BookView>>,
    cursor: Option<Seq<char>>,
) -> (Seq<BookView>, Option<Seq<char>>) {
    match cursor {
        None => (Seq::empty(), if items.len() > 0 { Some(items[0].id@) } else { None }),
        Some(c) => {
            let fresh = somes(coerced.take(scan_end(items, c)));
            (fresh, if fresh.len() > 0 { Some(items[0].id@) } else { None })
        },
    }
}

/// The outcome of comparing a page of the feed with a subscriber's cursor.
pub struct DiffResult {
    /// The new books, newest first.
    pub new_items: Vec<Book>,
    /// The cursor to store, or `None` when it does not change.
    pub new_cursor: Option<String>,
}

pub proof fn lemma_scan_end_at(items: Seq<Item>, c: Seq<char>, k: int)
    requires
        0 <= k <= items.len(),
        forall|j: int| 0 <= j < k ==> items[j].id@ != c,
        k == items.len() || items[k].id@ == c,
    ensures
        scan_end(items, c) == k,
    decreases items.len(),
{
    if items.len() > 0 && k > 0 {
        let rest = items.drop_first();
        assert forall|j: int| 0 <= j < k - 1 implies rest[j].id@ != c by {
            assert(rest[j] == items[j + 1]);
        }
        if k < items.len() {
            assert(rest[k - 1] == items[k]);
        }
        lemma_scan_end_at(rest, c, k - 1);
    }
}

pub proof fn lemma_scan_end_bounds(items: Seq<Item>, c: Seq<char>)
    ensures
        0 <= scan_end(items, c) <= items.len(),
        forall|j: int| 0 <= j < scan_end(items, c) ==> items[j].id@ != c,
        scan_end(items, c) == items.len() || items[scan_end(items, c)].id@ == c,
    decreases items.len(),
{
    if items.len() > 0 && items[0].id@ != c {
        let rest = items.drop_first();
        lemma_scan_end_bounds(rest, c);
        assert forall|j: int| 0 <= j < scan_end(items, c) implies items[j].id@ != c by {
            if j > 0 {
                assert(items[j] == rest[j - 1]);
            }
        }
        if scan_end(rest, c) < rest.len() {
            assert(items[scan_end(items, c)] == rest[scan_end(rest, c)]);
        }
    }
}

pub proof fn lemma_somes_len(s: Seq<Option<BookView>>)
    ensures
        somes(s).len() <= s.len(),
    decreases s.len(),
{
    if s.len() > 0 {
        lemma_somes_len(s.drop_last());
    }
}

pub proof fn lemma_somes_append(a: Seq<Option<BookView>>, b: Seq<Option<BookView>>)
    ensures
        somes(a + b) == somes(a) + somes(b),
    decreases b.len(),
{
    if b.len() == 0 {
        assert(a + b =~= a);
        assert(somes(a) + somes(b) =~= somes(a));
    } else {
        assert((a + b).drop_last() =~= a + b.drop_last());
        lemma_somes_append(a, b.drop_last());
        match b.last() {
            Some(v) => {
                assert(somes(a) + somes(b) =~= (somes(a) + somes(b.drop_last())).push(v));
            },
            None => {},
        }
    }
}

/// Compares a page of the feed with a subscriber's cursor, given what each
/// entry of the page coerces to.
pub fn select_new(items: &Vec<Item>, coerced: &Vec<Option<Book>>, cursor: &Option<String>) -> (r:
    DiffResult)
    requires
        items.len() == coerced.len(),
    ensures
        (views(r.new_items@), text_of(r.new_cursor)) == diff_spec(
            items@,
            opt_views(coerced@),
            text_of(*cursor),
        ),
{
    match cursor {
        None => {
            let new_cursor = if items.len() > 0 {
                Some(items[0].id.clone())
            } else {
                None
            };
            let r = DiffResult { new_items: Vec::new(), new_cursor };
            assert(views(r.new_items@) =~= Seq::<BookView>::empty());
            r
        },
        Some(c) => {
            let ghost all = opt_views(coerced@);
            let mut fresh: Vec<Book> = Vec::new();
            let mut i: usize = 0;
            while i < items.len()
                invariant
                    0 <= i <= items.len(),
                    items.len() == coerced.len(),
                    all == opt_views(coerced@),
                    forall|j: int| 0 <= j < i ==> items@[j].id@ != c@,
                    views(fresh@) == somes(all.take(i as int)),
                ensures
                    0 <= i <= items.len(),
                    forall|j: int| 0 <= j < i ==> items@[j].id@ != c@,
                    i == items.len() || items@[i as int].id@ == c@,
                    views(fresh@) == somes(all.take(i as int)),
                decreases items.len() - i,
            {
                if items[i].id == *c {
                    break;
                }
                let ghost before = fresh@;
                assert(all.take(i + 1).drop_last() =~= all.take(i as int));
                match &coerced[i] {
                    Some(b) => {
                        fresh.push(b.duplicate());
                        assert(views(fresh@) =~= views(before).push(b@));
                    },
                    None => {},
                }
                i += 1;
            }
            proof {
                lemma_scan_end_at(items@, c@, i as int);
                lemma_somes_len(all.take(i as int));
            }
            let new_cursor = if fresh.len() > 0 {
                Some(items[0].id.clone())
            } else {
                None
            };
            DiffResult { new_items: fresh, new_cursor }
        },
    }
}

/// What each entry of a page coerces to, in feed order.
pub fn coerce_page(items: &Vec<Item>) -> (r: Vec<Option<Book>>)
    ensures
        r.len() == items.len(),
        opt_views(r@) == coerce_all(items@),
{
    let mut out: Vec<Option<Book>> = Vec::new();
    let mut i: usize = 0;
    while i < items.len()
        invariant
            0 <= i <= items.len(),
            out.len() == i,
            opt_views(out@) == coerce_all(items@).take(i as int),
        decreases items.len() - i,
    {
        let ghost before = out@;
        let book = match Item::try_into(&items[i]) {
            Ok(b) => Some(b),
            Err(_) => None,
        };
        out.push(book);
        assert(opt_views(out@) =~= opt_views(before).push(coerce(items@[i as int])));
        assert(coerce_all(items@).take(i + 1) =~= coerce_all(items@).take(i as int).push(
            coerce(items@[i as int]),
        ));
        i += 1;
    }
    assert(coerce_all(items@).take(i as int) =~= coerce_all(items@));
    out
}

/// Compares a page of the feed, newest entry first, with a subscriber's cursor.
pub fn diff(items: &Vec<Item>, cursor: &Option<String>) -> (r: DiffResult)
    ensures
        (views(r.new_items@), text_of(r.new_cursor)) == diff_spec(
            items@,
            coerce_all(items@),
            text_of(*cursor),
        ),
{
    let coerced = coerce_page(items);
    select_new(items, &coerced, cursor)
}

} // verus!
