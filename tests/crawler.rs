use bookcreep::book::Book;
use bookcreep::feed::{Channel, Item, Rss, RssResult};
use bookcreep::fetch::{next_step, FetchError, FetchEvent, FetchStep};
use bookcreep::poll::{check_rss, finish_poll, poll, PollOutcome, StateWrite};
use bookcreep::user::User;

fn item(id: &str, pub_date: &str, title: &str) -> Item {
    Item {
        pub_date: pub_date.to_string(),
        id: id.to_string(),
        user_rating: 4,
        title: title.to_string(),
        link: format!("https://www.goodreads.com/review/show/{}", id),
        author: "Some Author".to_string(),
        image_url: format!("https://images.example/{}.jpg", id),
    }
}

const GOOD_DATE: &str = "Fri, 01 Jul 2022 10:21:33 -0700";
const OTHER_DATE: &str = "Sun, 26 Jun 2022 08:00:00 -0700";

/// A page shaped like the recorded feed: "4981" is the newest entry and
/// "43848929" the third.
fn recorded_page() -> Vec<Item> {
    vec![
        item("4981", GOOD_DATE, "The Newest"),
        item("31176886", OTHER_DATE, "The Second"),
        item("43848929", OTHER_DATE, "The Third"),
        item("7235533", OTHER_DATE, "The Fourth"),
    ]
}

fn fetched(items: Vec<Item>, etag: Option<&str>) -> RssResult {
    RssResult {
        rss: Rss { channel: Channel { title: "Reading".to_string(), items } },
        etag: etag.map(|e| e.to_string()),
    }
}

fn ids(books: &[Book]) -> Vec<String> {
    books.iter().map(|b| b.id().clone()).collect()
}

#[test]
fn get_rss_feed_fails_on_unmodified_etag() {
    let token = Some("test".to_string());
    assert!(matches!(next_step(&token, FetchEvent::Start), FetchStep::SendHead(_)));
    let step = next_step(&token, FetchEvent::HeadAnswered(304));
    match step {
        FetchStep::Stop(err) => assert!(err.message().contains("ETAG is unmodified")),
        _ => panic!("a 304 stops the fetch"),
    }
}

#[test]
fn get_rss_feed_fails_on_remote_server_error() {
    let token = Some("test".to_string());
    assert!(matches!(next_step(&token, FetchEvent::HeadAnswered(500)), FetchStep::SendGet));
    let step = next_step(&token, FetchEvent::GetAnswered(500));
    assert!(matches!(step, FetchStep::Stop(FetchError::HttpStatus(500))));
    match step {
        FetchStep::Stop(err) => assert!(err.message().contains("GET request returned HTTP 500")),
        _ => panic!("a 500 stops the fetch"),
    }
}

#[test]
fn error_messages_spell_out_status() {
    assert_eq!(FetchError::HttpStatus(500).message(), "GET request returned HTTP 500");
    assert_eq!(FetchError::HttpStatus(0).message(), "GET request returned HTTP 0");
    assert_eq!(FetchError::HttpStatus(404).message(), "GET request returned HTTP 404");
    assert_eq!(FetchError::HttpStatus(65535).message(), "GET request returned HTTP 65535");
    assert_eq!(FetchError::Unmodified.message(), "ETAG is unmodified");
    assert_eq!(FetchError::InvalidToken.message(), "Unable to parse etag");
    assert_eq!(FetchError::Transport.message(), "Unable to get url");
    assert_eq!(FetchError::EnvelopeParse.message(), "Unable deserialize response");
}

#[test]
fn get_rss_feed_succeeds_on_valid_response_no_etag() {
    let token = Some("test".to_string());
    assert!(matches!(next_step(&token, FetchEvent::HeadAnswered(200)), FetchStep::SendGet));
    assert!(matches!(next_step(&token, FetchEvent::GetAnswered(200)), FetchStep::ReadBody));
    let mut user = User::new(0, 0, 0, 0, Some("test".to_string()), 0, None);
    check_rss(&mut user, fetched(recorded_page(), None));
    assert_eq!(user.last_etag, None);
}

#[test]
fn get_rss_feed_succeeds_on_valid_response_with_etag() {
    let token = Some("test".to_string());
    assert!(matches!(next_step(&token, FetchEvent::HeadAnswered(200)), FetchStep::SendGet));
    assert!(matches!(next_step(&token, FetchEvent::GetAnswered(200)), FetchStep::ReadBody));
    let mut user = User::new(0, 0, 0, 0, Some("test".to_string()), 0, None);
    check_rss(&mut user, fetched(recorded_page(), Some("new-etag")));
    assert!(user.last_etag.unwrap().contains("new-etag"));
}

#[test]
fn check_rss_updates_user_correctly_for_first_time_crawl() {
    assert!(matches!(next_step(&None, FetchEvent::Start), FetchStep::SendGet));
    let mut user = User::new(0, 0, 0, 0, None, 0, None);
    assert!(check_rss(&mut user, fetched(recorded_page(), None)).is_none());
    assert!(user.last_book_id.is_some());
}

#[test]
fn check_rss_updates_user_last_etag_upon_etag_modification() {
    let mut user = User::new(0, 0, 0, 0, Some("old-etag".to_string()), 0, Some("4981".to_string()));
    assert!(matches!(next_step(&user.last_etag, FetchEvent::Start), FetchStep::SendHead(_)));
    assert!(check_rss(&mut user, fetched(recorded_page(), Some("new-etag"))).is_none());
    assert_eq!(user.last_etag.unwrap(), "new-etag");
}

#[test]
fn check_rss_returns_book_list_for_new_books_read() {
    let mut user = User::new(0, 0, 0, 0, None, 0, Some("43848929".to_string()));
    let book_list = check_rss(&mut user, fetched(recorded_page(), Some("new-etag"))).unwrap();
    assert_eq!(book_list.len(), 2);
    assert_eq!(user.last_etag.unwrap(), "new-etag");
    assert_eq!(user.last_book_id.unwrap(), "4981");
}

#[test]
fn client_returns_some_on_valid_etag_get() {
    let token = Some("TEST".to_string());
    assert!(matches!(next_step(&token, FetchEvent::Start), FetchStep::SendHead(_)));
    assert!(matches!(next_step(&token, FetchEvent::HeadAnswered(200)), FetchStep::SendGet));
}

#[test]
fn client_returns_none_on_unchanged_etag_get() {
    let token = Some("TEST".to_string());
    match next_step(&token, FetchEvent::Start) {
        FetchStep::SendHead(sent) => assert_eq!(sent, "TEST"),
        _ => panic!("a stored token is checked first"),
    }
    let step = next_step(&token, FetchEvent::HeadAnswered(304));
    assert!(matches!(step, FetchStep::Stop(FetchError::Unmodified)));
}

#[test]
fn token_that_is_no_header_value_fails_the_fetch() {
    let token = Some("bad\ntoken".to_string());
    let step = next_step(&token, FetchEvent::Start);
    assert!(matches!(step, FetchStep::Stop(FetchError::InvalidToken)));
    let tabbed = Some("W/\"a\tb\"".to_string());
    assert!(matches!(next_step(&tabbed, FetchEvent::Start), FetchStep::SendHead(_)));
}

#[test]
fn transport_failure_stops_the_fetch() {
    let step = next_step(&None, FetchEvent::TransportFailed);
    assert!(matches!(step, FetchStep::Stop(FetchError::Transport)));
}

#[test]
fn three_polls_prime_announce_then_skip() {
    let a = item("a", OTHER_DATE, "A");
    let b = item("b", OTHER_DATE, "B");
    let mut user = User::new(1, 2, 3, 4, None, 0, None);

    let first = poll(&mut user, Ok(fetched(vec![b.clone(), a.clone()], Some("e1"))));
    assert!(matches!(first, PollOutcome::NoNewEntries));
    assert_eq!(user.last_book_id.as_deref(), Some("b"));

    let c = item("c", GOOD_DATE, "C");
    let second = poll(&mut user, Ok(fetched(vec![c, b, a], Some("e2"))));
    match second {
        PollOutcome::NewEntries(books) => assert_eq!(ids(&books), vec!["c".to_string()]),
        _ => panic!("the new entry is announced"),
    }
    assert_eq!(user.last_book_id.as_deref(), Some("c"));
    assert_eq!(user.last_etag.as_deref(), Some("e2"));

    let step = next_step(&user.last_etag, FetchEvent::HeadAnswered(304));
    let third = match step {
        FetchStep::Stop(e) => poll(&mut user, Err(e)),
        _ => panic!("no GET after a 304"),
    };
    assert!(matches!(third, PollOutcome::Unmodified));
    assert_eq!(user.last_book_id.as_deref(), Some("c"));
}

#[test]
fn server_error_fails_and_only_touches_timestamp() {
    let mut user = User::new(1, 2, 3, 4, Some("tok".to_string()), 100, Some("b".to_string()));
    let step = next_step(&user.last_etag, FetchEvent::GetAnswered(500));
    let outcome = match step {
        FetchStep::Stop(e) => poll(&mut user, Err(e)),
        _ => panic!("a 500 stops the fetch"),
    };
    assert!(matches!(outcome, PollOutcome::Failed(FetchError::HttpStatus(500))));
    let write = finish_poll(&mut user, &outcome, 400);
    assert_eq!(write, StateWrite::TouchTimestamp);
    assert_eq!(user.last_checked, 400);
    assert_eq!(user.last_book_id.as_deref(), Some("b"));
    assert_eq!(user.last_etag.as_deref(), Some("tok"));
}

#[test]
fn successful_poll_writes_state() {
    let mut user = User::new(1, 2, 3, 4, None, 100, None);
    let outcome = poll(&mut user, Ok(fetched(recorded_page(), None)));
    assert_eq!(finish_poll(&mut user, &outcome, 500), StateWrite::UpdateState);
    assert_eq!(user.last_checked, 500);
    let unchanged = poll(&mut user, Err(FetchError::Unmodified));
    assert_eq!(finish_poll(&mut user, &unchanged, 600), StateWrite::TouchTimestamp);
}

#[test]
fn repoll_of_unchanged_feed_announces_nothing() {
    let mut user = User::new(0, 0, 0, 0, None, 0, Some("7235533".to_string()));
    let first = poll(&mut user, Ok(fetched(recorded_page(), None)));
    match first {
        PollOutcome::NewEntries(books) => assert_eq!(books.len(), 3),
        _ => panic!("three entries are new"),
    }
    let again = poll(&mut user, Ok(fetched(recorded_page(), None)));
    assert!(matches!(again, PollOutcome::NoNewEntries));
    assert_eq!(user.last_book_id.as_deref(), Some("4981"));
}
