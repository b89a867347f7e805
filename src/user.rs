use vstd::prelude::*;

verus! {

/// A subscriber whose reading feed is polled.
pub struct User {
    pub id: i64,
    pub discord_user_id: i64,
    pub discord_guild_id: i64,
    pub goodreads_user_id: i64,
    pub last_etag: Option<String>,
    pub last_checked: i64,
    pub last_book_id: Option<String>,
}

impl User {
    pub fn new(
        id: i64,
        discord_user_id: i64,
        discord_guild_id: i64,
        goodreads_user_id: i64,
        last_etag: Option<String>,
        last_checked: i64,
        last_book_id: Option<String>,
    ) -> (r: User)
        ensures
            r.id == id,
            r.discord_user_id == discord_user_id,
            r.discord_guild_id == discord_guild_id,
            r.goodreads_user_id == goodreads_user_id,
            r.last_etag == last_etag,
            r.last_checked == last_checked,
            r.last_book_id == last_book_id,
    {
        User {
            id,
            discord_user_id,
            discord_guild_id,
            goodreads_user_id,
            last_etag,
            last_checked,
            last_book_id,
        }
    }

    pub fn set_last_book_id(&mut self, id: Option<String>)
        ensures
            *final(self) == (User { last_book_id: id, ..*old(self) }),
    {
        self.last_book_id = id;
    }

    pub fn set_last_etag(&mut self, etag: Option<String>)
        ensures
            *final(self) == (User { last_etag: etag, ..*old(self) }),
    {
        self.last_etag = etag;
    }
}

} // verus!
