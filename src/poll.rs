use crate::book::{Book, BookView};
use crate::diff::{
    diff, diff_spec, lemma_scan_end_at, lemma_scan_end_bounds, lemma_somes_append,
    lemma_somes_len, scan_end, somes, text_of, views,
};
use crate::feed::{coerce, coerce_all, Item, RssResult};
use crate::fetch::{next_step_spec, FetchError, FetchEvent, StepKind};
use crate::user::User;
use vstd::prelude::*;

verus! {

/// The books that a poll of page `items` announces to a subscriber at `cursor`.
pub open spec fn emitted(items: Seq<Item>, cursor: Option<Seq<char>>) -> Seq<BookView> {
    diff_spec(items, coerce_all(items), cursor).0
}

/// The cursor a subscriber at `cursor` holds after a poll of page `items`.
pub open spec fn cursor_after(items: Seq<Item>, cursor: Option<Seq<char>>) -> Option<
    Seq<char>,
> {
    match diff_spec(items, coerce_all(items), cursor).1 {
        Some(c) => Some(c),
        None => cursor,
    }
}

/// The state of a subscriber after a fetched page was compared with its cursor:
/// it takes the validation token that came with the page and the new cursor.
pub open spec fn polled_user(
    old_user: User,
    page: Seq<Item>,
    etag: Option<String>,
    new_user: User,
) -> bool {
    &&& new_user.last_etag == etag
    &&& text_of(new_user.last_book_id) == cursor_after(page, text_of(old_user.last_book_id))
    &&& new_user.id == old_user.id
    &&& new_user.discord_user_id == old_user.discord_user_id
    &&& new_user.discord_guild_id == old_user.discord_guild_id
    &&& new_user.goodreads_user_id == old_user.goodreads_user_id
    &&& new_user.last_checked == old_user.last_checked
}

/// Compares a fetched feed with the subscriber's cursor and moves the
/// subscriber's validation token and cursor on. Returns the new books, newest
/// first, or `None` when there are none.
pub fn check_rss(user: &mut User, fetched: RssResult) -> (r: Option<Vec<Book>>)
    ensures
        polled_user(*old(user), fetched.rss.channel.items@, fetched.etag, *final(user)),
        r is Some <==> emitted(fetched.rss.channel.items@, text_of(old(user).last_book_id)).len()
            > 0,
        r matches Some(books) ==> views(books@) == emitted(
            fetched.rss.channel.items@,
            text_of(old(user).last_book_id),
        ),
{
    let RssResult { rss, etag } = fetched;
    user.set_last_etag(etag);
    let result = diff(&rss.channel.items, &user.last_book_id);
    match result.new_cursor {
        Some(c) => user.set_last_book_id(Some(c)),
        None => {},
    }
    if result.new_items.len() > 0 {
        Some(result.new_items)
    } else {
        None
    }
}

/// The result of one subscriber's poll cycle.
pub enum PollOutcome {
    /// The validation token matched: the feed was not fetched.
    Unmodified,
    /// The feed was fetched and holds nothing new.
    NoNewEntries,
    /// The feed was fetched and holds these new books, newest first.
    NewEntries(Vec<Book>),
    /// No feed page could be had this cycle.
    Failed(FetchError),
}

/// The outcome of a poll whose fetch ended with `e`: an unchanged feed is no
/// failure.
pub open spec fn failure_outcome(e: FetchError) -> PollOutcome {
    if e == FetchError::Unmodified {
        PollOutcome::Unmodified
    } else {
        PollOutcome::Failed(e)
    }
}

/// Finishes one subscriber's poll with what fetching its feed gave: a fetched
/// page is compared with the cursor; an unchanged feed or a failure leaves the
/// subscriber as it was.
pub fn poll(user: &mut User, fetched: Result<RssResult, FetchError>) -> (r: PollOutcome)
    ensures
        match fetched {
            Ok(f) => {
                let fresh = emitted(f.rss.channel.items@, text_of(old(user).last_book_id));
                &&& polled_user(*old(user), f.rss.channel.items@, f.etag, *final(user))
                &&& if fresh.len() > 0 {
                    r matches PollOutcome::NewEntries(books) && views(books@) == fresh
                } else {
                    r is NoNewEntries
                }
            },
            Err(e) => *final(user) == *old(user) && r == failure_outcome(e),
        },
{
    match fetched {
        Ok(f) => match check_rss(user, f) {
            Some(books) => PollOutcome::NewEntries(books),
            None => PollOutcome::NoNewEntries,
        },
        Err(FetchError::Unmodified) => PollOutcome::Unmodified,
        Err(e) => PollOutcome::Failed(e),
    }
}

/// How a finished poll is written back to the store.
#[derive(Clone, Copy, Debug, PartialEq, Eq, Structural)]
pub enum StateWrite {
    /// Store the subscriber's cursor, validation token and poll time in one write.
    UpdateState,
    /// Store only the poll time.
    TouchTimestamp,
}

/// Records that the subscriber was polled at `now`, whatever the outcome, and
/// says how to store it: a fetched feed stores cursor, token and time; an
/// unchanged feed or a failure stores the time alone.
pub fn finish_poll(user: &mut User, outcome: &PollOutcome, now: i64) -> (r: StateWrite)
    ensures
        *final(user) == (User { last_checked: now, ..*old(user) }),
        r == (if outcome is NoNewEntries || outcome is NewEntries {
            StateWrite::UpdateState
        } else {
            StateWrite::TouchTimestamp
        }),
{
    user.last_checked = now;
    match outcome {
        PollOutcome::NoNewEntries => StateWrite::UpdateState,
        PollOutcome::NewEntries(_) => StateWrite::UpdateState,
        _ => StateWrite::TouchTimestamp,
    }
}

} // verus!

verus! {

/// A subscriber that was never polled is announced nothing by a poll of a
/// non-empty page, and its cursor becomes the newest entry's id.
pub proof fn lemma_first_poll_primes_cursor(items: Seq<Item>)
    requires
        items.len() > 0,
    ensures
        emitted(items, None).len() == 0,
        cursor_after(items, None) == Some(items[0].id@),
{
}

/// When the cursor's id first occurs on the page at position `k`, a poll
/// announces exactly the books of the entries before `k` that coerce, in feed
/// order, and the cursor ends on the id at position 0, unless none of the
/// entries before `k` coerces (then it stays).
pub proof fn lemma_emits_entries_before_cursor(items: Seq<Item>, k: int)
    requires
        0 <= k < items.len(),
        forall|j: int| 0 <= j < k ==> items[j].id@ != items[k].id@,
    ensures
        emitted(items, Some(items[k].id@)) == somes(coerce_all(items).take(k)),
        emitted(items, Some(items[k].id@)).len() > 0 || k == 0 ==> cursor_after(
            items,
            Some(items[k].id@),
        ) == Some(items[0].id@),
{
    lemma_scan_end_at(items, items[k].id@, k);
}

/// An entry whose date cannot be read is left out of what a poll announces,
/// and only it: the page without it announces the same books. The cursor still
/// moves to the id of the page's newest entry, whether that entry coerces or not.
pub proof fn lemma_unreadable_entry_skipped(items: Seq<Item>, c: Seq<char>, i: int)
    requires
        0 <= i < scan_end(items, c),
        i < items.len(),
        coerce(items[i]) is None,
    ensures
        emitted(items, Some(c)) == emitted(items.remove(i), Some(c)),
        emitted(items, Some(c)).len() > 0 ==> cursor_after(items, Some(c)) == Some(items[0].id@),
{
    let k = scan_end(items, c);
    lemma_scan_end_bounds(items, c);
    let rest = items.remove(i);
    assert forall|j: int| 0 <= j < k - 1 implies rest[j].id@ != c by {
        if j < i {
            assert(rest[j] == items[j]);
        } else {
            assert(rest[j] == items[j + 1]);
        }
    }
    if k < items.len() {
        assert(rest[k - 1] == items[k]);
    }
    lemma_scan_end_at(rest, c, k - 1);
    let all = coerce_all(items);
    let head = all.take(i);
    let tail = all.subrange(i + 1, k);
    assert(all.take(k) =~= head + seq![None::<BookView>] + tail);
    assert(coerce_all(rest).take(k - 1) =~= head + tail);
    lemma_somes_append(head + seq![None::<BookView>], tail);
    lemma_somes_append(head, seq![None::<BookView>]);
    lemma_somes_append(head, tail);
    let none_only = seq![None::<BookView>];
    assert(none_only.drop_last() =~= Seq::<Option<BookView>>::empty());
    assert(somes(Seq::<Option<BookView>>::empty()) == Seq::<BookView>::empty());
    assert(somes(none_only) == somes(none_only.drop_last()));
    assert(somes(head) + somes(seq![None::<BookView>]) =~= somes(head));
}

/// Polling a page again after a poll of that same page announces nothing and
/// leaves the cursor where the first poll put it.
pub proof fn lemma_repoll_announces_nothing(items: Seq<Item>, cursor: Option<Seq<char>>)
    ensures
        emitted(items, cursor_after(items, cursor)).len() == 0,
        cursor_after(items, cursor_after(items, cursor)) == cursor_after(items, cursor),
{
    let after = cursor_after(items, cursor);
    if items.len() > 0 && after == Some(items[0].id@) {
        lemma_scan_end_at(items, items[0].id@, 0);
        assert(coerce_all(items).take(0) =~= Seq::<Option<BookView>>::empty());
    }
}

/// The same, stated of subscribers: a subscriber polled twice on an unchanged
/// page is announced nothing the second time, and keeps its cursor.
pub proof fn lemma_repoll_subscriber(
    first: User,
    second: User,
    third: User,
    items: Seq<Item>,
    etag: Option<String>,
)
    requires
        polled_user(first, items, etag, second),
        polled_user(second, items, etag, third),
    ensures
        emitted(items, text_of(second.last_book_id)).len() == 0,
        text_of(third.last_book_id) == text_of(second.last_book_id),
{
    lemma_repoll_announces_nothing(items, text_of(first.last_book_id));
}

/// When the validation token sent is the server's current one, the server
/// answers the validation request with 304: the fetch then stops without a GET,
/// and the poll's outcome is `Unmodified` (`poll` leaves the subscriber, cursor
/// included, as it was on every failed fetch).
pub proof fn lemma_matching_token_skips_get(token: Seq<char>)
    ensures
        next_step_spec(Some(token), FetchEvent::HeadAnswered(304)) == StepKind::Stop(
            FetchError::Unmodified,
        ),
        failure_outcome(FetchError::Unmodified) == PollOutcome::Unmodified,
{
}

/// A poll either leaves the cursor where it was or moves it to the id of the
/// newest entry of the page it fetched.
pub proof fn lemma_cursor_moves_to_page(items: Seq<Item>, cursor: Option<Seq<char>>)
    ensures
        cursor_after(items, cursor) == cursor || (items.len() > 0 && cursor_after(items, cursor)
            == Some(items[0].id@)),
{
    if let Some(c) = cursor {
        lemma_scan_end_bounds(items, c);
        lemma_somes_len(coerce_all(items).take(scan_end(items, c)));
    }
}

/// When the feed request is answered with a status other than 200, the fetch
/// stops with that status and the poll's outcome is `Failed` with it (`poll`
/// leaves the subscriber's cursor and token as they were on every failed fetch,
/// and `finish_poll` then stores the poll time alone).
pub proof fn lemma_server_error_fails(token: Option<Seq<char>>, status: u16)
    requires
        status != 200,
    ensures
        next_step_spec(token, FetchEvent::GetAnswered(status)) == StepKind::Stop(
            FetchError::HttpStatus(status),
        ),
        failure_outcome(FetchError::HttpStatus(status)) == PollOutcome::Failed(
            FetchError::HttpStatus(status),
        ),
{
}

} // verus!
