//! The ids of the tweets the bot has dealt with, oldest first.

use vstd::prelude::*;

verus! {

/// The key under which the ids are stored.
pub const SEEN_TWEET_IDS_KEY: &'static str = "seen_tweet_ids";

/// From this many ids on, the older part is forgotten before the home timeline is read.
pub const MAX_SEEN_TWEET_IDS: usize = 10000;

/// How many of the newest ids the home timeline is asked to leave out.
pub const RECENT_TWEET_IDS: usize = 42;

/// The ids that stay when the limit is applied.
pub open spec fn trimmed(seen: Seq<Seq<char>>) -> Seq<Seq<char>> {
    if seen.len() >= MAX_SEEN_TWEET_IDS {
        seen.skip(MAX_SEEN_TWEET_IDS as int / 2)
    } else {
        seen
    }
}

/// The newest ids.
pub open spec fn recent(seen: Seq<Seq<char>>) -> Seq<Seq<char>> {
    if seen.len() > RECENT_TWEET_IDS {
        seen.skip(seen.len() - RECENT_TWEET_IDS)
    } else {
        seen
    }
}

/// Forgets the older part of the ids once there are too many.
pub fn trim_seen(seen: &mut Vec<String>)
    ensures
        final(seen).deep_view() == trimmed(old(seen).deep_view()),
{
    if seen.len() >= MAX_SEEN_TWEET_IDS {
        let kept: Vec<String> = seen.split_off(MAX_SEEN_TWEET_IDS / 2);
        *seen = kept;
    }
}

/// Copies the newest ids.
pub fn recent_seen(seen: &Vec<String>) -> (r: Vec<String>)
    ensures
        r.deep_view() == recent(seen.deep_view()),
{
    let start: usize = if seen.len() > RECENT_TWEET_IDS {
        seen.len() - RECENT_TWEET_IDS
    } else {
        0
    };
    let mut ids: Vec<String> = Vec::new();
    let mut i: usize = start;
    while i < seen.len()
        invariant
            start <= i <= seen.len(),
            ids.deep_view() == seen.deep_view().subrange(start as int, i as int),
        decreases seen.len() - i,
    {
        let ghost before = ids.deep_view();
        ids.push(seen[i].clone());
        assert(ids.deep_view() =~= before.push(seen.deep_view()[i as int]));
        i = i + 1;
    }
    ids
}

/// Tells whether a tweet has been dealt with.
pub fn is_seen(seen: &Vec<String>, id: &String) -> (r: bool)
    ensures
        r == seen.deep_view().contains(id@),
{
    let mut i: usize = 0;
    while i < seen.len()
        invariant
            i <= seen.len(),
            forall|j: int| 0 <= j < i ==> #[trigger] seen.deep_view()[j] != id@,
        decreases seen.len() - i,
    {
        if seen[i] == *id {
            assert(seen.deep_view()[i as int] == id@);
            return true;
        }
        i = i + 1;
    }
    false
}

/// Forgetting keeps the newest ids: what stays is an end part of what was there, and at most half
/// of the limit is lost.
pub proof fn law_trimmed_keeps_the_newest(seen: Seq<Seq<char>>)
    ensures
        trimmed(seen) == seen.skip(seen.len() - trimmed(seen).len()),
        seen.len() - trimmed(seen).len() <= MAX_SEEN_TWEET_IDS as int / 2,
        seen.len() < MAX_SEEN_TWEET_IDS + MAX_SEEN_TWEET_IDS as int / 2 ==> trimmed(seen).len()
            < MAX_SEEN_TWEET_IDS,
        seen.no_duplicates() ==> trimmed(seen).no_duplicates(),
{
    assert(seen.skip(0) =~= seen);
}

/// Forgetting never touches the ids that the home timeline is asked to leave out.
pub proof fn law_recent_survives_trimming(seen: Seq<Seq<char>>)
    ensures
        recent(trimmed(seen)) == recent(seen),
        recent(seen).len() <= RECENT_TWEET_IDS,
{
    if seen.len() >= MAX_SEEN_TWEET_IDS {
        assert(recent(trimmed(seen)) =~= recent(seen));
    }
}

/// Fewer than ten thousand ids are kept whole. From ten thousand on, the five thousand oldest are
/// forgotten, and all others stay in order.
pub proof fn law_only_the_oldest_are_forgotten(seen: Seq<Seq<char>>)
    ensures
        seen.len() < 10000 ==> trimmed(seen) == seen,
        seen.len() >= 10000 ==> {
            &&& trimmed(seen).len() + 5000 == seen.len()
            &&& forall|i: int|
                0 <= i < trimmed(seen).len() ==> #[trigger] trimmed(seen)[i] == seen[i + 5000]
        },
{
}

/// The newest ids are the last forty-two, in order, or all where there are fewer.
pub proof fn law_recent_are_the_last(seen: Seq<Seq<char>>)
    ensures
        seen.len() <= 42 ==> recent(seen) == seen,
        seen.len() > 42 ==> {
            &&& recent(seen).len() == 42
            &&& forall|i: int|
                0 <= i < 42 ==> #[trigger] recent(seen)[i] == seen[seen.len() - 42 + i]
        },
{
}

/// The ids are always stored under the same key, so that what one task stores the next one loads.
pub proof fn law_ids_have_one_key()
    ensures
        SEEN_TWEET_IDS_KEY@ == "seen_tweet_ids"@,
{
}

} // verus!
