use crate::user::User;
use vstd::prelude::*;

verus! {

/// How many subscribers one cycle polls at most.
pub const BATCH_LIMIT: usize = 5;

/// How long ago, in minutes, a subscriber must have been polled to be due again.
pub const STALE_AFTER_MINUTES: i64 = 5;

/// Seconds between two cycles of the crawler.
pub const TICK_SECONDS: u64 = 60;

/// Requests per second that the crawler sends to the feed host at most.
pub const REQUESTS_PER_SECOND: u32 = 1;

/// The poll time before which a subscriber is due at time `now` (in seconds),
/// for a staleness of `minutes`; `None` where the staleness in seconds or that
/// time is not an `i64`.
pub fn staleness_cutoff(now: i64, minutes: i64) -> (r: Option<i64>)
    ensures
        r matches Some(t) ==> t == now - 60 * minutes,
        r is Some <==> (i64::MIN <= 60 * minutes <= i64::MAX && i64::MIN <= now - 60 * minutes
            <= i64::MAX),
{
    match minutes.checked_mul(60) {
        Some(span) => now.checked_sub(span),
        None => None,
    }
}

/// The subscribers among `users` that were last polled before `cutoff`, in
/// order, at most `limit` of them.
pub open spec fn due_batch(users: Seq<User>, cutoff: i64, limit: nat) -> Seq<User>
    decreases users.len(),
{
    if users.len() == 0 || limit == 0 {
        Seq::empty()
    } else if users[0].last_checked < cutoff {
        seq![users[0]] + due_batch(users.drop_first(), cutoff, (limit - 1) as nat)
    } else {
        due_batch(users.drop_first(), cutoff, limit)
    }
}

/// Picks the subscribers that a cycle polls: those last polled before `cutoff`,
/// in the order given, at most `limit` of them.
pub fn select_due(users: Vec<User>, cutoff: i64, limit: usize) -> (r: Vec<User>)
    ensures
        r@ == due_batch(users@, cutoff, limit as nat),
{
    let ghost all = users@;
    let mut rest = users;
    let mut picked: Vec<User> = Vec::new();
    while rest.len() > 0 && picked.len() < limit
        invariant
            picked.len() <= limit,
            picked@ + due_batch(rest@, cutoff, (limit - picked.len()) as nat) == due_batch(
                all,
                cutoff,
                limit as nat,
            ),
        decreases rest.len(),
    {
        let ghost before = rest@;
        let user = rest.remove(0);
        assert(rest@ =~= before.drop_first());
        if user.last_checked < cutoff {
            let ghost old_picked = picked@;
            picked.push(user);
            assert(picked@ + due_batch(rest@, cutoff, (limit - picked.len()) as nat)
                =~= old_picked + due_batch(before, cutoff, (limit - old_picked.len()) as nat));
        }
    }
    assert(due_batch(rest@, cutoff, (limit - picked.len()) as nat) == Seq::<User>::empty());
    assert(picked@ + Seq::<User>::empty() =~= picked@);
    picked
}

} // verus!
